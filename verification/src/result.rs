//! The error taxonomy: a closed set of error kinds, query predicates, and the
//! translation that attaches the native boundary's diagnostic text.
//!
//! When the diagnostic text matches one of two known phrasings about an
//! unknown field, the error kind is rewritten to a field-not-found error and
//! the offending field name is extracted from the text.

use vstd::prelude::*;

use crate::invoke::{spec_code_text, ReturnCode};
use crate::text::{contains_sub, find_from, find_sub_from, lemma_find_from_correct, occurs};

verus! {

/// A result of a connector operation.
pub type ConnectorResult<T> = Result<T, ConnectorError>;

/// A result of a connector operation that returns no value on success.
pub type ConnectorFallible = ConnectorResult<()>;

/// An error returned by a connector operation.
#[derive(Debug)]
pub struct ConnectorError {
    /// The kind of error that occurred.
    pub kind: ErrorKind,
    /// The most recent diagnostic text from the native boundary, if any.
    pub last_error_message: Option<String>,
}

/// The kinds of error a connector operation can end in.
#[derive(Debug)]
pub enum ErrorKind {
    /// The native boundary reported a failing return code.
    Native {
        /// The return code the call ended in.
        code: ReturnCode,
    },
    /// Some named thing was not found.
    NotFound {
        /// What kind of thing was not found.
        what: NotFoundErrorKind,
        /// The name that was looked up.
        name: String,
    },
    /// Some operation was found to be invalid.
    Invalid {
        /// What was invalid.
        what: InvalidErrorKind,
        /// Why it was invalid.
        context: String,
    },
    /// Some resource was found to be busy.
    Busy {
        /// The resource that is busy.
        resource: BusyErrorKind,
        /// Why it is busy.
        context: String,
    },
    /// A transient view was used after the data behind it was superseded.
    Stale {
        /// Why the view is stale.
        context: String,
    },
    /// The operation timed out.
    Timeout,
}

/// What kind of thing was not found.
#[derive(Debug, Clone, PartialEq, Eq, Structural)]
pub enum NotFoundErrorKind {
    /// A named entity (an input, an output, a connector).
    Entity,
    /// A field of a sample or instance.
    Field,
}

/// What kind of invalid operation was attempted.
#[derive(Debug, Clone, PartialEq, Eq, Structural)]
pub enum InvalidErrorKind {
    /// An argument passed to an operation was invalid.
    Argument,
    /// A conversion failed.
    Conversion,
    /// A serialization failed.
    Serialization,
    /// A deserialization failed.
    Deserialization,
    /// An internal invariant was violated.
    Assertion,
}

/// What kind of resource is busy.
#[derive(Debug, Clone, PartialEq, Eq, Structural)]
pub enum BusyErrorKind {
    /// An entity is held by another thread.
    Entity,
    /// A lock could not be taken.
    Lock,
}

/// The field name extracted from a diagnostic message, if the message matches
/// one of the two known phrasings about an unknown field: one for data-sample
/// fields, one for metadata fields. The name runs from the end of the marker
/// to the closing delimiter, cut short at any repetition of the marker.
pub open spec fn spec_field_from_message(msg: Seq<char>) -> Option<Seq<char>> {
    if occurs(msg, "Cannot find a member"@) {
        match find_from(msg, "name = \""@, 0) {
            None => None,
            Some(i) => {
                let start = i + "name = \""@.len();
                Some(msg.subrange(start, cut_at(msg, "\""@, "name = \""@, start)))
            },
        }
    } else if occurs(msg, "Unknown SampleInfo field:"@) {
        match find_from(msg, "Unknown SampleInfo field:"@, 0) {
            None => None,
            Some(i) => {
                let start = i + "Unknown SampleInfo field:"@.len();
                Some(
                    msg.subrange(
                        start,
                        cut_at(msg, "\n"@, "Unknown SampleInfo field:"@, start),
                    ),
                )
            },
        }
    } else {
        None
    }
}

/// The end of an extracted field name: the first delimiter or repeated marker
/// at or after `start`, or the end of the message.
pub open spec fn cut_at(msg: Seq<char>, delim: Seq<char>, marker: Seq<char>, start: int) -> int {
    let at_delim = match find_from(msg, delim, start as nat) {
        Some(e) => e,
        None => msg.len() as int,
    };
    let at_marker = match find_from(msg, marker, start as nat) {
        Some(e) => e,
        None => msg.len() as int,
    };
    if at_delim <= at_marker {
        at_delim
    } else {
        at_marker
    }
}

/// Extract the offending field name from a diagnostic message about an
/// unknown field, if the message matches either known phrasing.
pub fn invalid_field_error_from_message(message: &str) -> (r: Option<&str>)
    ensures
        r matches Some(f) ==> spec_field_from_message(message@) == Some(f@),
        r is None ==> spec_field_from_message(message@) is None,
{
    if contains_sub(message, "Cannot find a member") {
        match find_sub_from(message, "name = \"", 0) {
            None => None,
            Some(i) => Some(extract_name(message, i, "name = \"", "\"")),
        }
    } else if contains_sub(message, "Unknown SampleInfo field:") {
        match find_sub_from(message, "Unknown SampleInfo field:", 0) {
            None => None,
            Some(i) => Some(
                extract_name(message, i, "Unknown SampleInfo field:", "\n"),
            ),
        }
    } else {
        None
    }
}

/// Slice the field name out of the message: from the end of the marker found
/// at `i` to the cut position for the delimiter.
fn extract_name<'a>(message: &'a str, i: usize, marker: &str, delim: &str) -> (r: &'a str)
    requires
        find_from(message@, marker@, 0) == Some(i as int),
    ensures
        r@ == message@.subrange(
            i + marker@.len(),
            cut_at(message@, delim@, marker@, i + marker@.len() as int),
        ),
{
    proof {
        lemma_find_from_correct(message@, marker@, 0);
        assert(i + marker@.len() <= message@.len());
    }
    let n = message.unicode_len();
    let start = i + marker.unicode_len();
    let at_delim = match find_sub_from(message, delim, start) {
        Some(e) => e,
        None => n,
    };
    let at_marker = match find_sub_from(message, marker, start) {
        Some(e) => e,
        None => n,
    };
    let end = if at_delim <= at_marker {
        at_delim
    } else {
        at_marker
    };
    proof {
        lemma_find_from_correct(message@, delim@, start as nat);
        lemma_find_from_correct(message@, marker@, start as nat);
    }
    message.substring_char(start, end)
}

/// The field name the diagnostic text would rewrite an error to, if any.
pub open spec fn diag_field(msg: Option<String>) -> Option<Seq<char>> {
    match msg {
        Some(m) => spec_field_from_message(m@),
        None => None,
    }
}

/// How an error kind and the diagnostic text available at construction relate
/// to the kind the error is built with: a recognized unknown-field message
/// rewrites any kind to a field-not-found error carrying the extracted name;
/// otherwise the kind stands as given.
pub open spec fn kind_with_diag(kind: ErrorKind, msg: Option<String>, out: ErrorKind) -> bool {
    match diag_field(msg) {
        Some(f) => out matches ErrorKind::NotFound { what: NotFoundErrorKind::Field, name }
            && name@ == f,
        None => out == kind,
    }
}

/// As `kind_with_diag`, for an invalid-operation kind given by its sub-kind
/// and context text: a recognized unknown-field message still wins.
pub open spec fn invalid_with_diag(
    msg: Option<String>,
    what: InvalidErrorKind,
    text: Seq<char>,
    out: ErrorKind,
) -> bool {
    match diag_field(msg) {
        Some(f) => out matches ErrorKind::NotFound { what: w, name } && w
            == NotFoundErrorKind::Field && name@ == f,
        None => out matches ErrorKind::Invalid { what: w, context } && w == what && context@
            == text,
    }
}

impl ConnectorError {
    /// Build an error from a kind and the most recent diagnostic text of the
    /// native boundary, rewriting to a field-not-found error when the text
    /// matches a known unknown-field phrasing.
    pub fn from_kind(kind: ErrorKind, last_error_message: Option<String>) -> (r: ConnectorError)
        ensures
            kind_with_diag(kind, last_error_message, r.kind),
            r.last_error_message == last_error_message,
    {
        let extracted: Option<String> = match &last_error_message {
            Some(message) => match invalid_field_error_from_message(message.as_str()) {
                Some(field_name) => Some(field_name.to_owned()),
                None => None,
            },
            None => None,
        };
        match extracted {
            Some(name) => ConnectorError {
                kind: ErrorKind::NotFound { what: NotFoundErrorKind::Field, name },
                last_error_message,
            },
            None => ConnectorError { kind, last_error_message },
        }
    }

    /// Whether this is a timeout error.
    pub fn is_timeout(&self) -> (r: bool)
        ensures
            r == (self.kind is Timeout),
    {
        matches!(self.kind, ErrorKind::Timeout)
    }

    /// Whether this is an entity-not-found error.
    pub fn is_entity_not_found(&self) -> (r: bool)
        ensures
            r == (self.kind matches ErrorKind::NotFound { what: NotFoundErrorKind::Entity, .. }),
    {
        matches!(self.kind, ErrorKind::NotFound { what: NotFoundErrorKind::Entity, .. })
    }

    /// Whether this is a field-not-found error.
    pub fn is_field_not_found(&self) -> (r: bool)
        ensures
            r == (self.kind matches ErrorKind::NotFound { what: NotFoundErrorKind::Field, .. }),
    {
        matches!(self.kind, ErrorKind::NotFound { what: NotFoundErrorKind::Field, .. })
    }

    /// Whether this is an error reported by the native boundary.
    pub fn is_native_error(&self) -> (r: bool)
        ensures
            r == (self.kind matches ErrorKind::Native { .. }),
    {
        matches!(self.kind, ErrorKind::Native { .. })
    }

    /// Whether this is a native error with the given return code.
    pub fn is_native_error_code(&self, code: ReturnCode) -> (r: bool)
        ensures
            r == (self.kind matches ErrorKind::Native { code: c } && c == code),
    {
        matches!(self.kind, ErrorKind::Native { code: c } if c == code)
    }

    /// Whether this is a staleness error.
    pub fn is_stale_resource(&self) -> (r: bool)
        ensures
            r == (self.kind matches ErrorKind::Stale { .. }),
    {
        matches!(self.kind, ErrorKind::Stale { .. })
    }

    /// The diagnostic text from the native boundary, if any was attached.
    pub fn last_error_message(&self) -> (r: Option<&str>)
        ensures
            r matches Some(m) ==> (self.last_error_message matches Some(s) && s@ == m@),
            r is None ==> self.last_error_message is None,
    {
        match &self.last_error_message {
            Some(s) => Some(s.as_str()),
            None => None,
        }
    }

    /// The text this error is displayed as.
    pub fn describe(&self) -> (r: String)
        ensures
            r@ == spec_error_text(self),
    {
        let mut s = self.kind.describe();
        match &self.last_error_message {
            Some(msg) => {
                s.append(" - Last error message: ");
                s.append(msg.as_str());
            },
            None => {},
        }
        proof {
            assert(s@ =~= spec_error_text(self));
        }
        s
    }
}

/// The text an error kind is displayed as.
pub open spec fn spec_kind_text(kind: ErrorKind) -> Seq<char> {
    match kind {
        ErrorKind::Native { code } => "Native error with code '"@ + spec_code_text(code) + "'"@,
        ErrorKind::NotFound { what, name } => match what {
            NotFoundErrorKind::Entity => "Entity '"@ + name@ + "' was not found"@,
            NotFoundErrorKind::Field => "Field '"@ + name@ + "' was not found"@,
        },
        ErrorKind::Invalid { what, context } => match what {
            InvalidErrorKind::Argument => "Invalid argument: "@ + context@,
            InvalidErrorKind::Conversion => "Invalid conversion: "@ + context@,
            InvalidErrorKind::Serialization => "Invalid serialization: "@ + context@,
            InvalidErrorKind::Deserialization => "Invalid deserialization: "@ + context@,
            InvalidErrorKind::Assertion => "Assertion failed: "@ + context@,
        },
        ErrorKind::Busy { resource, context } => match resource {
            BusyErrorKind::Entity => "Entity is busy: "@ + context@,
            BusyErrorKind::Lock => "Lock is busy: "@ + context@,
        },
        ErrorKind::Stale { context } => "Stale resource: "@ + context@,
        ErrorKind::Timeout => "Operation timed out"@,
    }
}

/// The text an error is displayed as: its kind, then any diagnostic text.
pub open spec fn spec_error_text(e: &ConnectorError) -> Seq<char> {
    match e.last_error_message {
        Some(msg) => spec_kind_text(e.kind) + " - Last error message: "@ + msg@,
        None => spec_kind_text(e.kind),
    }
}

impl ErrorKind {
    /// The text this kind is displayed as.
    pub fn describe(&self) -> (r: String)
        ensures
            r@ == spec_kind_text(*self),
    {
        let s = match self {
            ErrorKind::Native { code } => {
                let mut s = "Native error with code '".to_owned();
                s.append(code.describe().as_str());
                s.append("'");
                s
            },
            ErrorKind::NotFound { what, name } => {
                let mut s = match what {
                    NotFoundErrorKind::Entity => "Entity '".to_owned(),
                    NotFoundErrorKind::Field => "Field '".to_owned(),
                };
                s.append(name.as_str());
                s.append("' was not found");
                s
            },
            ErrorKind::Invalid { what, context } => {
                let mut s = match what {
                    InvalidErrorKind::Argument => "Invalid argument: ".to_owned(),
                    InvalidErrorKind::Conversion => "Invalid conversion: ".to_owned(),
                    InvalidErrorKind::Serialization => "Invalid serialization: ".to_owned(),
                    InvalidErrorKind::Deserialization => "Invalid deserialization: ".to_owned(),
                    InvalidErrorKind::Assertion => "Assertion failed: ".to_owned(),
                };
                s.append(context.as_str());
                s
            },
            ErrorKind::Busy { resource, context } => {
                let mut s = match resource {
                    BusyErrorKind::Entity => "Entity is busy: ".to_owned(),
                    BusyErrorKind::Lock => "Lock is busy: ".to_owned(),
                };
                s.append(context.as_str());
                s
            },
            ErrorKind::Stale { context } => {
                let mut s = "Stale resource: ".to_owned();
                s.append(context.as_str());
                s
            },
            ErrorKind::Timeout => "Operation timed out".to_owned(),
        };
        proof {
            assert(s@ =~= spec_kind_text(*self));
        }
        s
    }

    /// An invalid-argument error.
    pub fn invalid_argument_error(context: &str) -> (r: Self)
        ensures
            r matches ErrorKind::Invalid { what: InvalidErrorKind::Argument, context: c } && c@
                == context@,
    {
        ErrorKind::Invalid { what: InvalidErrorKind::Argument, context: context.to_owned() }
    }

    /// A busy-entity error.
    pub fn entity_busy_error(context: &str) -> (r: Self)
        ensures
            r matches ErrorKind::Busy { resource: BusyErrorKind::Entity, context: c } && c@
                == context@,
    {
        ErrorKind::Busy { resource: BusyErrorKind::Entity, context: context.to_owned() }
    }

    /// A busy-lock error, for a lock whose holder panicked.
    pub fn lock_poisoned_error(context: &str) -> (r: Self)
        ensures
            r matches ErrorKind::Busy { resource: BusyErrorKind::Lock, context: c } && c@
                == context@,
    {
        ErrorKind::Busy { resource: BusyErrorKind::Lock, context: context.to_owned() }
    }

    /// A conversion error for a string that could not cross the boundary.
    pub fn invalid_string_conversion_error() -> (r: Self)
        ensures
            r matches ErrorKind::Invalid { what: InvalidErrorKind::Conversion, context: c } && c@
                == "string conversion failed"@,
    {
        ErrorKind::Invalid {
            what: InvalidErrorKind::Conversion,
            context: "string conversion failed".to_owned(),
        }
    }

    /// A timeout error.
    pub fn timeout_error() -> (r: Self)
        ensures
            r is Timeout,
    {
        ErrorKind::Timeout
    }

    /// An entity-not-found error.
    pub fn entity_not_found_error(entity_name: &str) -> (r: Self)
        ensures
            r matches ErrorKind::NotFound { what: NotFoundErrorKind::Entity, name } && name@
                == entity_name@,
    {
        ErrorKind::NotFound { what: NotFoundErrorKind::Entity, name: entity_name.to_owned() }
    }

    /// A field-not-found error.
    pub fn field_not_found_error(field_name: &str) -> (r: Self)
        ensures
            r matches ErrorKind::NotFound { what: NotFoundErrorKind::Field, name } && name@
                == field_name@,
    {
        ErrorKind::NotFound { what: NotFoundErrorKind::Field, name: field_name.to_owned() }
    }

    /// A native error carrying a failing return code.
    pub fn native_error(code: ReturnCode) -> (r: Self)
        ensures
            r matches ErrorKind::Native { code: c } && c == code,
    {
        ErrorKind::Native { code }
    }

    /// A staleness error, for a view whose backing data was superseded.
    pub fn stale_entity_error(context: &str) -> (r: Self)
        ensures
            r matches ErrorKind::Stale { context: c } && c@ == context@,
    {
        ErrorKind::Stale { context: context.to_owned() }
    }

    /// An internal-invariant error.
    pub fn assertion_failed_error(context: &str) -> (r: Self)
        ensures
            r matches ErrorKind::Invalid { what: InvalidErrorKind::Assertion, context: c } && c@
                == context@,
    {
        ErrorKind::Invalid { what: InvalidErrorKind::Assertion, context: context.to_owned() }
    }

    /// Turn this kind into the error variant of a connector result, with the
    /// diagnostic text available at the failure.
    pub fn into_err<R>(self, last_error_message: Option<String>) -> (r: ConnectorResult<R>)
        ensures
            r matches Err(e) && kind_with_diag(self, last_error_message, e.kind)
                && e.last_error_message == last_error_message,
    {
        Err(ConnectorError::from_kind(self, last_error_message))
    }
}

} // verus!
