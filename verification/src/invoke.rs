//! The reply vocabulary of the native boundary.
//!
//! Every native call ends in a small integer return code, sometimes with an
//! output value beside it. This module gives the codes their names, converts
//! application indices to the boundary's one-based convention, and turns a
//! reply into the typed result the rest of the crate works with.

use vstd::prelude::*;

use crate::connector::SelectedValue;
use crate::result::{
    diag_field, invalid_with_diag, kind_with_diag, ConnectorError, ConnectorResult, ErrorKind,
    InvalidErrorKind, NotFoundErrorKind,
};
use crate::text::{spec_dec_i64, fmt_i64};

verus! {

/// A return code of the native boundary.
#[derive(Debug, Clone, Copy, PartialEq, Eq, Structural)]
pub enum ReturnCode {
    Success,
    Error,
    AlreadyDeleted,
    Timeout,
    NoData,
    IllegalOperation,
    Unknown(i32),
}

/// The native integer for each named return code.
pub open spec fn spec_code_as_native(code: ReturnCode) -> int {
    match code {
        ReturnCode::Success => 0,
        ReturnCode::Error => 1,
        ReturnCode::AlreadyDeleted => 9,
        ReturnCode::Timeout => 10,
        ReturnCode::NoData => 11,
        ReturnCode::IllegalOperation => 12,
        ReturnCode::Unknown(code) => code as int,
    }
}

/// The named return code for a native integer. A handful of codes are
/// deliberately collapsed into `Error`; integers outside the native
/// vocabulary are kept in `Unknown`.
pub open spec fn spec_code_from_native(value: int) -> ReturnCode {
    if value == 0 {
        ReturnCode::Success
    } else if value == 1 {
        ReturnCode::Error
    } else if value == 9 {
        ReturnCode::AlreadyDeleted
    } else if value == 10 {
        ReturnCode::Timeout
    } else if value == 11 {
        ReturnCode::NoData
    } else if value == 12 {
        ReturnCode::IllegalOperation
    } else if (2 <= value && value <= 8) || value == 1000 {
        ReturnCode::Error
    } else {
        ReturnCode::Unknown(value as i32)
    }
}

/// The text a return code is displayed as.
pub open spec fn spec_code_text(code: ReturnCode) -> Seq<char> {
    match code {
        ReturnCode::Success => "OK"@,
        ReturnCode::Error => "Error"@,
        ReturnCode::AlreadyDeleted => "Already Deleted"@,
        ReturnCode::Timeout => "Timeout"@,
        ReturnCode::NoData => "No Data"@,
        ReturnCode::IllegalOperation => "Illegal Operation"@,
        ReturnCode::Unknown(code) => "Unknown error code: "@ + spec_dec_i64(code as int),
    }
}

impl ReturnCode {
    /// The native integer representation of this code.
    pub fn as_native(&self) -> (r: i32)
        ensures
            r == spec_code_as_native(*self),
    {
        match self {
            ReturnCode::Success => 0,
            ReturnCode::Error => 1,
            ReturnCode::AlreadyDeleted => 9,
            ReturnCode::Timeout => 10,
            ReturnCode::NoData => 11,
            ReturnCode::IllegalOperation => 12,
            ReturnCode::Unknown(code) => *code,
        }
    }

    /// The named code for a native integer.
    pub fn from_native(value: i32) -> (r: ReturnCode)
        ensures
            r == spec_code_from_native(value as int),
    {
        match value {
            0 => ReturnCode::Success,
            1 => ReturnCode::Error,
            9 => ReturnCode::AlreadyDeleted,
            10 => ReturnCode::Timeout,
            11 => ReturnCode::NoData,
            12 => ReturnCode::IllegalOperation,
            2 | 3 | 4 | 5 | 6 | 7 | 8 | 1000 => ReturnCode::Error,
            _ => ReturnCode::Unknown(value),
        }
    }

    /// The text this code is displayed as.
    pub fn describe(&self) -> (r: String)
        ensures
            r@ == spec_code_text(*self),
    {
        match self {
            ReturnCode::Success => "OK".to_owned(),
            ReturnCode::Error => "Error".to_owned(),
            ReturnCode::AlreadyDeleted => "Already Deleted".to_owned(),
            ReturnCode::Timeout => "Timeout".to_owned(),
            ReturnCode::NoData => "No Data".to_owned(),
            ReturnCode::IllegalOperation => "Illegal Operation".to_owned(),
            ReturnCode::Unknown(code) => {
                let mut s = "Unknown error code: ".to_owned();
                s.append(fmt_i64(*code as i64).as_str());
                proof {
                    assert(s@ =~= spec_code_text(*self));
                }
                s
            },
        }
    }
}

/// Translating a named code back to its native integer and forth again is the
/// identity, outside the `Unknown` bucket (whose integer may name a code of
/// its own); and the native integer of a translated code is the integer it
/// came from, outside the handful collapsed into `Error`.
pub proof fn lemma_code_translation_round_trip(code: ReturnCode, value: int)
    ensures
        !(code is Unknown) ==> spec_code_from_native(spec_code_as_native(code)) == code,
        !((2 <= value && value <= 8) || value == 1000) && i32::MIN <= value <= i32::MAX
            ==> spec_code_as_native(spec_code_from_native(value)) == value,
{
}

/// A sample index in the boundary's own convention: one-based, within the
/// native integer width.
#[derive(Debug, Clone, Copy, PartialEq, Eq, Structural)]
pub struct ConnectorIndex(pub i32);

impl ConnectorIndex {
    /// Convert a zero-based application index, rejecting one that would
    /// overflow the native integer width.
    pub fn from_zero_based(value: usize) -> (r: ConnectorResult<ConnectorIndex>)
        ensures
            value + 1 <= i32::MAX ==> (r matches Ok(ix) && ix.0 == value + 1),
            value + 1 > i32::MAX ==> (r matches Err(e) && e.kind matches ErrorKind::Invalid {
                what: InvalidErrorKind::Argument,
                ..
            } && e.last_error_message is None),
    {
        if value >= i32::MAX as usize {
            Err(
                ConnectorError::from_kind(
                    ErrorKind::invalid_argument_error("index exceeds maximum allowed value"),
                    None,
                ),
            )
        } else {
            Ok(ConnectorIndex(1 + value as i32))
        }
    }
}

/// A request for one of the boundary's wait calls: how many milliseconds to
/// wait, or the boundary's marker for an unbounded wait.
#[derive(Debug, Clone, Copy, PartialEq, Eq, Structural)]
pub struct WaitRequest {
    /// The timeout handed to the native call.
    pub timeout_ms: i32,
}

/// A native reply: the return code of a call, with whatever output value came
/// back beside it.
#[derive(Debug)]
pub struct InvokeResult<T> {
    /// The return code the call ended in.
    pub code: ReturnCode,
    /// The output value the call produced (`()` when it produces none).
    pub value: T,
}

impl<T> InvokeResult<T> {
    /// A reply from a call that returns a code and one output value.
    pub fn with_output(code: i32, value: T) -> (r: Self)
        ensures
            r.code == spec_code_from_native(code as int),
            r.value == value,
    {
        InvokeResult { code: ReturnCode::from_native(code), value }
    }

    /// Turn the reply into a typed result: the output value on success,
    /// `Timeout` for the timeout code, and a native error for every other
    /// code, with the boundary's diagnostic text attached.
    pub fn into_result(self, last_error_message: Option<String>) -> (r: ConnectorResult<T>)
        ensures
            self.code is Success ==> (r matches Ok(v) && v == self.value),
            self.code is Timeout ==> (r matches Err(e) && kind_with_diag(
                ErrorKind::Timeout,
                last_error_message,
                e.kind,
            ) && e.last_error_message == last_error_message),
            !(self.code is Success) && !(self.code is Timeout) ==> (r matches Err(e)
                && kind_with_diag(
                ErrorKind::Native { code: self.code },
                last_error_message,
                e.kind,
            ) && e.last_error_message == last_error_message),
    {
        match self.code {
            ReturnCode::Success => Ok(self.value),
            ReturnCode::Timeout => Err(
                ConnectorError::from_kind(ErrorKind::timeout_error(), last_error_message),
            ),
            other => Err(
                ConnectorError::from_kind(ErrorKind::native_error(other), last_error_message),
            ),
        }
    }
}

impl InvokeResult<()> {
    /// A reply from a call that returns only a code.
    pub fn no_output(code: i32) -> (r: Self)
        ensures
            r.code == spec_code_from_native(code as int),
    {
        InvokeResult { code: ReturnCode::from_native(code), value: () }
    }

    /// A reply from a call that cannot fail.
    pub fn never_fails() -> (r: Self)
        ensures
            r.code is Success,
    {
        InvokeResult { code: ReturnCode::Success, value: () }
    }
}

impl InvokeResult<Option<String>> {
    /// A reply from a call that returns a string through a pointer that may
    /// be null; the boundary hands it over as `None` in that case.
    pub fn with_string_return(value: Option<String>) -> (r: Self)
        ensures
            r.code is Success,
            r.value == value,
    {
        InvokeResult { code: ReturnCode::Success, value }
    }

    /// Turn a string-returning reply into a typed result: a missing string on
    /// a successful call is a conversion failure, every failing code is
    /// translated as usual.
    pub fn into_string(self, last_error_message: Option<String>) -> (r: ConnectorResult<String>)
        ensures
            self.code is Success && self.value is Some ==> (r matches Ok(s) && s
                == self.value->Some_0),
            self.code is Success && self.value is None ==> (r matches Err(e)
                && e.last_error_message == last_error_message && (match diag_field(
                last_error_message,
            ) {
                Some(f) => e.kind matches ErrorKind::NotFound {
                    what: NotFoundErrorKind::Field,
                    name,
                } && name@ == f,
                None => e.kind matches ErrorKind::Invalid {
                    what: InvalidErrorKind::Conversion,
                    context,
                } && context@ == "string conversion failed"@,
            })),
            self.code is Timeout ==> (r matches Err(e) && kind_with_diag(
                ErrorKind::Timeout,
                last_error_message,
                e.kind,
            ) && e.last_error_message == last_error_message),
            !(self.code is Success) && !(self.code is Timeout) ==> (r matches Err(e)
                && kind_with_diag(
                ErrorKind::Native { code: self.code },
                last_error_message,
                e.kind,
            ) && e.last_error_message == last_error_message),
    {
        match self.code {
            ReturnCode::Success => match self.value {
                Some(s) => Ok(s),
                None => Err(
                    ConnectorError::from_kind(
                        ErrorKind::invalid_string_conversion_error(),
                        last_error_message,
                    ),
                ),
            },
            ReturnCode::Timeout => Err(
                ConnectorError::from_kind(ErrorKind::timeout_error(), last_error_message),
            ),
            other => Err(
                ConnectorError::from_kind(ErrorKind::native_error(other), last_error_message),
            ),
        }
    }
}


/// The variant selector a tagged-value reply carries.
#[derive(Debug, Clone, Copy, PartialEq, Eq, Structural)]
pub enum AnyValue {
    /// No value was available.
    Unavailable,
    /// The value is a number.
    Number,
    /// The value is a boolean.
    Boolean,
    /// The value is a string.
    String,
    /// A selector outside the boundary's vocabulary.
    Unknown(i32),
}

/// The native integer for each variant selector.
pub open spec fn spec_any_as_native(kind: AnyValue) -> int {
    match kind {
        AnyValue::Unavailable => 0,
        AnyValue::Number => 1,
        AnyValue::Boolean => 2,
        AnyValue::String => 3,
        AnyValue::Unknown(code) => code as int,
    }
}

/// The variant selector for a native integer.
pub open spec fn spec_any_from_native(value: int) -> AnyValue {
    if value == 0 {
        AnyValue::Unavailable
    } else if value == 1 {
        AnyValue::Number
    } else if value == 2 {
        AnyValue::Boolean
    } else if value == 3 {
        AnyValue::String
    } else {
        AnyValue::Unknown(value as i32)
    }
}

impl AnyValue {
    /// The native integer representation of this selector.
    pub fn as_native(&self) -> (r: i32)
        ensures
            r == spec_any_as_native(*self),
    {
        match self {
            AnyValue::Unavailable => 0,
            AnyValue::Number => 1,
            AnyValue::Boolean => 2,
            AnyValue::String => 3,
            AnyValue::Unknown(code) => *code,
        }
    }

    /// The selector for a native integer.
    pub fn from_native(value: i32) -> (r: AnyValue)
        ensures
            r == spec_any_from_native(value as int),
    {
        match value {
            0 => AnyValue::Unavailable,
            1 => AnyValue::Number,
            2 => AnyValue::Boolean,
            3 => AnyValue::String,
            other => AnyValue::Unknown(other),
        }
    }
}

/// The raw outputs of a tagged-value call: the selector says which of the
/// three value slots the boundary filled. The numeric slot carries the bit
/// pattern of the boundary's double-precision value; the string slot is
/// `None` where the boundary's pointer was null.
#[derive(Debug)]
pub struct AnyValueHolder {
    /// Which value slot the boundary selected, as its native integer.
    pub selected: i32,
    /// The numeric slot, as a bit pattern.
    pub number_bits: u64,
    /// The boolean slot.
    pub boolean: bool,
    /// The string slot.
    pub string_value: Option<String>,
}

impl InvokeResult<AnyValueHolder> {
    /// Turn a tagged-value reply into the selected value: the slot the
    /// selector names on success; an internal-invariant error for a missing
    /// string, an unavailable value, or a selector outside the vocabulary;
    /// and the usual translation for every failing code.
    pub fn into_selected_value(self, last_error_message: Option<String>) -> (r: ConnectorResult<
        SelectedValue,
    >)
        ensures
            self.code is Success && spec_any_from_native(self.value.selected as int)
                is Number ==> (r matches Ok(v) && v == SelectedValue::Number(
                self.value.number_bits,
            )),
            self.code is Success && spec_any_from_native(self.value.selected as int)
                is Boolean ==> (r matches Ok(v) && v == SelectedValue::Boolean(
                self.value.boolean,
            )),
            self.code is Success && spec_any_from_native(self.value.selected as int) is String
                && self.value.string_value is Some ==> (r matches Ok(v)
                && (v matches SelectedValue::String(s) && s == self.value.string_value->Some_0)),
            self.code is Success && spec_any_from_native(self.value.selected as int) is String
                && self.value.string_value is None ==> (r matches Err(e)
                && e.last_error_message == last_error_message && invalid_with_diag(
                last_error_message,
                InvalidErrorKind::Assertion,
                "Returned string value shouldn't be null"@,
                e.kind,
            )),
            self.code is Success && spec_any_from_native(self.value.selected as int)
                is Unavailable ==> (r matches Err(e) && e.last_error_message
                == last_error_message && invalid_with_diag(
                last_error_message,
                InvalidErrorKind::Assertion,
                "Unavailable AnyValue kind"@,
                e.kind,
            )),
            self.code is Success && spec_any_from_native(self.value.selected as int)
                is Unknown ==> (r matches Err(e) && e.last_error_message == last_error_message
                && invalid_with_diag(
                last_error_message,
                InvalidErrorKind::Assertion,
                "Unknown AnyValue kind: "@ + spec_dec_i64(self.value.selected as int),
                e.kind,
            )),
            self.code is Timeout ==> (r matches Err(e) && kind_with_diag(
                ErrorKind::Timeout,
                last_error_message,
                e.kind,
            ) && e.last_error_message == last_error_message),
            !(self.code is Success) && !(self.code is Timeout) ==> (r matches Err(e)
                && kind_with_diag(
                ErrorKind::Native { code: self.code },
                last_error_message,
                e.kind,
            ) && e.last_error_message == last_error_message),
    {
        match self.code {
            ReturnCode::Success => {
                let holder = self.value;
                match AnyValue::from_native(holder.selected) {
                    AnyValue::Number => Ok(SelectedValue::Number(holder.number_bits)),
                    AnyValue::Boolean => Ok(SelectedValue::Boolean(holder.boolean)),
                    AnyValue::String => match holder.string_value {
                        Some(s) => Ok(SelectedValue::String(s)),
                        None => Err(
                            ConnectorError::from_kind(
                                ErrorKind::assertion_failed_error(
                                    "Returned string value shouldn't be null",
                                ),
                                last_error_message,
                            ),
                        ),
                    },
                    AnyValue::Unavailable => Err(
                        ConnectorError::from_kind(
                            ErrorKind::assertion_failed_error("Unavailable AnyValue kind"),
                            last_error_message,
                        ),
                    ),
                    AnyValue::Unknown(code) => {
                        let mut context = "Unknown AnyValue kind: ".to_owned();
                        context.append(fmt_i64(code as i64).as_str());
                        proof {
                            assert(context@ =~= "Unknown AnyValue kind: "@ + spec_dec_i64(
                                holder.selected as int,
                            ));
                        }
                        Err(
                            ConnectorError::from_kind(
                                ErrorKind::Invalid {
                                    what: InvalidErrorKind::Assertion,
                                    context,
                                },
                                last_error_message,
                            ),
                        )
                    },
                }
            },
            ReturnCode::Timeout => Err(
                ConnectorError::from_kind(ErrorKind::timeout_error(), last_error_message),
            ),
            other => Err(
                ConnectorError::from_kind(ErrorKind::native_error(other), last_error_message),
            ),
        }
    }
}

} // verus!
