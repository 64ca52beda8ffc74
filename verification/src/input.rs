//! The read side: an input handle over the native reader's sample cache, the
//! sample views into it, and the cursors that walk them.
//!
//! A cursor captures the sample count once, at construction; a later read or
//! take does not change an already-constructed cursor's length, but the
//! boundary refuses accesses to cache slots it has since recycled.

use vstd::prelude::*;

use crate::invoke::{ConnectorIndex, InvokeResult, ReturnCode, WaitRequest};
use crate::result::{
    diag_field, invalid_with_diag, kind_with_diag, ConnectorFallible, ConnectorResult, ErrorKind,
    InvalidErrorKind, NotFoundErrorKind,
};

verus! {

/// An input: a live view over the per-reader sample cache of the native
/// boundary, owned exclusively by the acquiring thread. It holds no samples
/// itself; its contents are only as fresh as the most recent read or take.
#[derive(Debug)]
pub struct Input {
    /// The entity name this input was acquired under.
    name: String,
}

/// Where a field query reads from: the sample's data or its metadata.
#[derive(Debug, Clone, Copy, PartialEq, Eq, Structural)]
pub enum QuerySource {
    /// The sample's data fields.
    Data,
    /// The sample's metadata fields.
    Info,
}

/// What a field query asks the boundary to return.
#[derive(Debug, Clone, Copy, PartialEq, Eq, Structural)]
pub enum QueryKind {
    /// A numeric value.
    Number,
    /// A boolean value.
    Boolean,
    /// A string value.
    Text,
    /// A tagged value of whichever variant the field has.
    Tagged,
    /// The value as JSON text.
    Json,
}

/// The request for reading one field of one cached sample.
#[derive(Debug)]
pub struct FieldQuery {
    /// The entity name of the input.
    pub entity: String,
    /// The sample's position, in the boundary's one-based convention.
    pub index: ConnectorIndex,
    /// The field to read, by name.
    pub field: String,
    /// Whether the field lives in the sample's data or its metadata.
    pub source: QuerySource,
    /// What the boundary is asked to return.
    pub kind: QueryKind,
}

/// The request for reading one whole cached sample as JSON text.
#[derive(Debug)]
pub struct SampleQuery {
    /// The entity name of the input.
    pub entity: String,
    /// The sample's position, in the boundary's one-based convention.
    pub index: ConnectorIndex,
}

/// What a well-formed field query looks like for a zero-based sample index:
/// granted with the position converted to the boundary's one-based
/// convention, or refused as an invalid argument where the conversion would
/// overflow the native integer width.
pub open spec fn spec_query_ok(
    r: ConnectorResult<FieldQuery>,
    input: &Input,
    index: int,
    field: Seq<char>,
    source: QuerySource,
    kind: QueryKind,
) -> bool {
    &&& index + 1 <= i32::MAX ==> (r matches Ok(q) && q.entity@ == input.name_view() && q.index.0
        == index + 1 && q.field@ == field && q.source == source && q.kind == kind)
    &&& index + 1 > i32::MAX ==> (r matches Err(e) && e.kind matches ErrorKind::Invalid {
        what: InvalidErrorKind::Argument,
        ..
    })
}

impl Input {
    /// The entity name this input was acquired under.
    pub closed spec fn name_view(&self) -> Seq<char> {
        self.name@
    }

    /// An input handle for the named reader.
    pub(crate) fn new(name: &str) -> (r: Input)
        ensures
            r.name_view() == name@,
    {
        Input { name: name.to_owned() }
    }

    /// The entity name this input was acquired under.
    pub fn name(&self) -> (r: &str)
        ensures
            r@ == self.name_view(),
    {
        self.name.as_str()
    }

    /// What a read reply means: the cache was copied without consuming the
    /// reader's own, so an absent-data code is success with zero samples;
    /// every other failing code is translated as usual.
    pub fn read(&mut self, reply: InvokeResult<()>, last_error_message: Option<String>) -> (r:
        ConnectorFallible)
        ensures
            *final(self) == *old(self),
            spec_data_op(r, reply.code, last_error_message),
    {
        self.data_op(reply, last_error_message)
    }

    /// What a take reply means: as `read`, for the consuming variant.
    pub fn take(&mut self, reply: InvokeResult<()>, last_error_message: Option<String>) -> (r:
        ConnectorFallible)
        ensures
            *final(self) == *old(self),
            spec_data_op(r, reply.code, last_error_message),
    {
        self.data_op(reply, last_error_message)
    }

    /// What a return-loan reply means: as `read`, for releasing an
    /// outstanding loan.
    pub fn return_loan(&mut self, reply: InvokeResult<()>, last_error_message: Option<String>)
        -> (r: ConnectorFallible)
        ensures
            *final(self) == *old(self),
            spec_data_op(r, reply.code, last_error_message),
    {
        self.data_op(reply, last_error_message)
    }

    /// The shared translation of the three data operations.
    fn data_op(&mut self, reply: InvokeResult<()>, last_error_message: Option<String>) -> (r:
        ConnectorFallible)
        ensures
            *final(self) == *old(self),
            spec_data_op(r, reply.code, last_error_message),
    {
        let result = reply.into_result(last_error_message);
        match result {
            Ok(_) => Ok(()),
            Err(e) => {
                if e.is_native_error_code(ReturnCode::NoData) {
                    Ok(())
                } else {
                    Err(e)
                }
            },
        }
    }

    /// The request for waiting until data is available on this input, with
    /// no timeout.
    pub fn wait(&self) -> (r: WaitRequest)
        ensures
            r.timeout_ms == crate::INFINITE_TIMEOUT_IN_MS,
    {
        WaitRequest { timeout_ms: crate::INFINITE_TIMEOUT_IN_MS }
    }

    /// The request for waiting until data is available on this input, with a
    /// millisecond timeout clamped to the boundary's integer width.
    pub fn wait_with_timeout(&self, timeout_ms: u64) -> (r: WaitRequest)
        ensures
            timeout_ms <= i32::MAX ==> r.timeout_ms == timeout_ms,
            timeout_ms > i32::MAX ==> r.timeout_ms == i32::MAX,
    {
        WaitRequest { timeout_ms: crate::clamp_timeout_ms(timeout_ms) }
    }

    /// The request for waiting until the number of matched publications
    /// changes, with no timeout; the boundary replies with the signed change.
    pub fn wait_for_publications(&self) -> (r: WaitRequest)
        ensures
            r.timeout_ms == crate::INFINITE_TIMEOUT_IN_MS,
    {
        WaitRequest { timeout_ms: crate::INFINITE_TIMEOUT_IN_MS }
    }

    /// The request for waiting until the number of matched publications
    /// changes, with a millisecond timeout clamped to the boundary's width.
    pub fn wait_for_publications_with_timeout(&self, timeout_ms: u64) -> (r: WaitRequest)
        ensures
            timeout_ms <= i32::MAX ==> r.timeout_ms == timeout_ms,
            timeout_ms > i32::MAX ==> r.timeout_ms == i32::MAX,
    {
        WaitRequest { timeout_ms: crate::clamp_timeout_ms(timeout_ms) }
    }

    /// What the reply listing the matched publications means: the JSON text
    /// on success, the usual translation otherwise.
    pub fn display_matched_publications(
        &self,
        reply: InvokeResult<Option<String>>,
        last_error_message: Option<String>,
    ) -> (r: ConnectorResult<String>)
        ensures
            reply.code is Success && reply.value is Some ==> (r matches Ok(s) && s
                == reply.value->Some_0),
            reply.code is Success && reply.value is None ==> (r matches Err(e)
                && e.last_error_message == last_error_message && invalid_with_diag(
                last_error_message,
                InvalidErrorKind::Conversion,
                "string conversion failed"@,
                e.kind,
            )),
            reply.code is Timeout ==> (r matches Err(e) && kind_with_diag(
                ErrorKind::Timeout,
                last_error_message,
                e.kind,
            ) && e.last_error_message == last_error_message),
            !(reply.code is Success) && !(reply.code is Timeout) ==> (r matches Err(e)
                && kind_with_diag(
                ErrorKind::Native { code: reply.code },
                last_error_message,
                e.kind,
            ) && e.last_error_message == last_error_message),
    {
        reply.into_string(last_error_message)
    }

    /// A cursor over the cached samples, its length captured now: `count` is
    /// the sample count of the most recent read or take. Later mutation of
    /// the input does not change the cursor's length.
    pub fn samples(&self, count: usize) -> (r: SampleIterator)
        ensures
            r.wf(),
            r.spec_index() == 0,
            r.spec_len() == count,
            r.spec_remaining() == count,
    {
        SampleIterator { index: 0, samples_len: count }
    }
}

/// The translation shared by read, take and return-loan: success and
/// absent data are success; a diagnostic that rewrites the absent-data code
/// to a field error is propagated like every other failure.
pub open spec fn spec_data_op(
    r: ConnectorFallible,
    code: ReturnCode,
    msg: Option<String>,
) -> bool {
    &&& code is Success ==> r is Ok
    &&& code is NoData && diag_field(msg) is None ==> r is Ok
    &&& code is NoData && diag_field(msg) is Some ==> (r matches Err(e) && e.kind
        matches ErrorKind::NotFound { what: NotFoundErrorKind::Field, .. })
    &&& code is Timeout ==> (r matches Err(e) && kind_with_diag(ErrorKind::Timeout, msg, e.kind)
        && e.last_error_message == msg)
    &&& !(code is Success) && !(code is NoData) && !(code is Timeout) ==> (r matches Err(e)
        && kind_with_diag(ErrorKind::Native { code }, msg, e.kind) && e.last_error_message
        == msg)
}

/// A view of one cached sample: a position in the cache as seen through an
/// input, not a copy of the data. Each accessor builds the request for one
/// boundary call against the owning input.
#[derive(Debug)]
pub struct Sample {
    /// The sample's zero-based position in the cache.
    index: usize,
}

impl Sample {
    /// The sample's zero-based position in the cache.
    pub closed spec fn spec_index(&self) -> int {
        self.index as int
    }

    /// The sample's zero-based position in the cache.
    pub fn index(&self) -> (r: usize)
        ensures
            r == self.spec_index(),
    {
        self.index
    }

    /// The request for the sample's validity flag: the boundary's
    /// `valid_data` metadata field.
    pub fn is_valid(&self, input: &Input) -> (r: ConnectorResult<FieldQuery>)
        ensures
            spec_query_ok(
                r,
                input,
                self.spec_index(),
                "valid_data"@,
                QuerySource::Info,
                QueryKind::Boolean,
            ),
    {
        field_query(input, self.index, "valid_data", QuerySource::Info, QueryKind::Boolean)
    }

    /// The request for a tagged metadata field.
    pub fn get_info(&self, input: &Input, field_name: &str) -> (r: ConnectorResult<FieldQuery>)
        ensures
            spec_query_ok(
                r,
                input,
                self.spec_index(),
                field_name@,
                QuerySource::Info,
                QueryKind::Tagged,
            ),
    {
        field_query(input, self.index, field_name, QuerySource::Info, QueryKind::Tagged)
    }

    /// The request for a metadata field as JSON text.
    pub fn get_info_json(&self, input: &Input, field_name: &str) -> (r: ConnectorResult<
        FieldQuery,
    >)
        ensures
            spec_query_ok(
                r,
                input,
                self.spec_index(),
                field_name@,
                QuerySource::Info,
                QueryKind::Json,
            ),
    {
        field_query(input, self.index, field_name, QuerySource::Info, QueryKind::Json)
    }

    /// The request for a boolean data field.
    pub fn get_boolean(&self, input: &Input, field_name: &str) -> (r: ConnectorResult<FieldQuery>)
        ensures
            spec_query_ok(
                r,
                input,
                self.spec_index(),
                field_name@,
                QuerySource::Data,
                QueryKind::Boolean,
            ),
    {
        field_query(input, self.index, field_name, QuerySource::Data, QueryKind::Boolean)
    }

    /// The request for a string data field.
    pub fn get_string(&self, input: &Input, field_name: &str) -> (r: ConnectorResult<FieldQuery>)
        ensures
            spec_query_ok(
                r,
                input,
                self.spec_index(),
                field_name@,
                QuerySource::Data,
                QueryKind::Text,
            ),
    {
        field_query(input, self.index, field_name, QuerySource::Data, QueryKind::Text)
    }

    /// The request for a numeric data field.
    pub fn get_number(&self, input: &Input, field_name: &str) -> (r: ConnectorResult<FieldQuery>)
        ensures
            spec_query_ok(
                r,
                input,
                self.spec_index(),
                field_name@,
                QuerySource::Data,
                QueryKind::Number,
            ),
    {
        field_query(input, self.index, field_name, QuerySource::Data, QueryKind::Number)
    }

    /// The request for a tagged data field.
    pub fn get_value(&self, input: &Input, field_name: &str) -> (r: ConnectorResult<FieldQuery>)
        ensures
            spec_query_ok(
                r,
                input,
                self.spec_index(),
                field_name@,
                QuerySource::Data,
                QueryKind::Tagged,
            ),
    {
        field_query(input, self.index, field_name, QuerySource::Data, QueryKind::Tagged)
    }

    /// The request for a data field as JSON text.
    pub fn get_value_json(&self, input: &Input, field_name: &str) -> (r: ConnectorResult<
        FieldQuery,
    >)
        ensures
            spec_query_ok(
                r,
                input,
                self.spec_index(),
                field_name@,
                QuerySource::Data,
                QueryKind::Json,
            ),
    {
        field_query(input, self.index, field_name, QuerySource::Data, QueryKind::Json)
    }

    /// The request for the whole sample as JSON text.
    pub fn get_as_json(&self, input: &Input) -> (r: ConnectorResult<SampleQuery>)
        ensures
            self.spec_index() + 1 <= i32::MAX ==> (r matches Ok(q) && q.entity@
                == input.name_view() && q.index.0 == self.spec_index() + 1),
            self.spec_index() + 1 > i32::MAX ==> (r matches Err(e) && e.kind
                matches ErrorKind::Invalid { what: InvalidErrorKind::Argument, .. }),
    {
        let index = ConnectorIndex::from_zero_based(self.index)?;
        Ok(SampleQuery { entity: input.name().to_owned(), index })
    }
}

/// Build the request for one field of one cached sample.
fn field_query(
    input: &Input,
    index: usize,
    field: &str,
    source: QuerySource,
    kind: QueryKind,
) -> (r: ConnectorResult<FieldQuery>)
    ensures
        spec_query_ok(r, input, index as int, field@, source, kind),
{
    let index = ConnectorIndex::from_zero_based(index)?;
    Ok(
        FieldQuery {
            entity: input.name().to_owned(),
            index,
            field: field.to_owned(),
            source,
            kind,
        },
    )
}

/// A finite cursor over the cached samples `0 .. count`, where `count` was
/// captured at construction. It knows its exact remaining length.
#[derive(Debug, Clone, Copy, PartialEq, Eq, Structural)]
pub struct SampleIterator {
    /// The next position to yield.
    index: usize,
    /// The sample count captured at construction.
    samples_len: usize,
}

impl SampleIterator {
    /// The next position to yield.
    pub closed spec fn spec_index(&self) -> int {
        self.index as int
    }

    /// The sample count captured at construction.
    pub closed spec fn spec_len(&self) -> int {
        self.samples_len as int
    }

    /// How many samples remain to be yielded.
    pub open spec fn spec_remaining(&self) -> int {
        self.spec_len() - self.spec_index()
    }

    /// The cursor's position never passes its length.
    pub closed spec fn wf(&self) -> bool {
        self.index <= self.samples_len
    }

    /// The next sample, in index order: one view per position below the
    /// captured count, then nothing. Each successful step shortens the
    /// remaining length by exactly one.
    pub fn next(&mut self) -> (r: Option<Sample>)
        requires
            old(self).wf(),
        ensures
            final(self).wf(),
            final(self).spec_len() == old(self).spec_len(),
            old(self).spec_remaining() > 0 ==> (r matches Some(s) && s.spec_index() == old(
                self,
            ).spec_index() && final(self).spec_index() == old(self).spec_index() + 1),
            old(self).spec_remaining() == 0 ==> r is None && final(self).spec_index() == old(
                self,
            ).spec_index(),
    {
        if self.index < self.samples_len {
            let result = Some(Sample { index: self.index });
            self.index += 1;
            result
        } else {
            None
        }
    }

    /// The exact number of samples left: the captured count less the
    /// positions already yielded. It reaches zero exactly when the cursor is
    /// exhausted.
    pub fn len(&self) -> (r: usize)
        requires
            self.wf(),
        ensures
            r == self.spec_remaining(),
    {
        self.samples_len - self.index
    }

    /// The size bounds of the cursor: the remaining length exactly.
    pub fn size_hint(&self) -> (r: (usize, Option<usize>))
        requires
            self.wf(),
        ensures
            r.0 == self.spec_remaining(),
            r.1 matches Some(upper) && upper == self.spec_remaining(),
    {
        let remaining = self.len();
        (remaining, Some(remaining))
    }

    /// The valid-only view of this cursor: it yields only samples whose
    /// validity flag is true.
    pub fn valid_only(self) -> (r: ValidSampleIterator)
        ensures
            r.inner() == self,
    {
        ValidSampleIterator { iter: self }
    }
}

/// The first position at or after `from` whose validity flag is true.
pub open spec fn first_valid_from(validity: Seq<bool>, from: nat) -> Option<int>
    decreases validity.len() + 1 - from,
{
    if from >= validity.len() {
        None
    } else if validity[from as int] {
        Some(from as int)
    } else {
        first_valid_from(validity, from + 1)
    }
}

/// The positions at or after `from` whose validity flag is true, in order.
pub open spec fn spec_valid_indices(validity: Seq<bool>, from: nat) -> Seq<int>
    decreases validity.len() + 1 - from,
{
    if from >= validity.len() {
        Seq::empty()
    } else if validity[from as int] {
        seq![from as int] + spec_valid_indices(validity, from + 1)
    } else {
        spec_valid_indices(validity, from + 1)
    }
}

/// A cursor that yields only the samples whose validity flag is true. The
/// per-sample validity answers are handed in as one flag per cached sample
/// (a failed check counts as invalid, as the boundary's answer decides);
/// because validity is not known in advance, only an upper bound on the
/// remaining count is available.
#[derive(Debug)]
pub struct ValidSampleIterator {
    /// The underlying cursor.
    iter: SampleIterator,
}

impl ValidSampleIterator {
    /// The underlying cursor.
    pub closed spec fn inner(&self) -> SampleIterator {
        self.iter
    }

    /// The next sample whose validity flag is true, in index order, skipping
    /// every sample whose flag is false.
    pub fn next(&mut self, validity: &Vec<bool>) -> (r: Option<Sample>)
        requires
            old(self).inner().wf(),
            validity@.len() == old(self).inner().spec_len(),
        ensures
            final(self).inner().wf(),
            final(self).inner().spec_len() == old(self).inner().spec_len(),
            match first_valid_from(validity@, old(self).inner().spec_index() as nat) {
                Some(i) => r matches Some(s) && s.spec_index() == i
                    && final(self).inner().spec_index() == i + 1,
                None => r is None && final(self).inner().spec_remaining() == 0,
            },
    {
        loop
            invariant
                self.iter.wf(),
                self.iter.spec_len() == old(self).inner().spec_len(),
                validity@.len() == self.iter.spec_len(),
                first_valid_from(validity@, self.iter.spec_index() as nat) == first_valid_from(
                    validity@,
                    old(self).inner().spec_index() as nat,
                ),
            decreases self.iter.spec_remaining(),
        {
            let ghost pos = self.iter.spec_index();
            match self.iter.next() {
                None => {
                    return None;
                },
                Some(sample) => {
                    let i = sample.index();
                    if validity[i] {
                        proof {
                            assert(first_valid_from(validity@, pos as nat) == Some(i as int));
                        }
                        return Some(sample);
                    }
                    proof {
                        assert(first_valid_from(validity@, pos as nat) == first_valid_from(
                            validity@,
                            (pos + 1) as nat,
                        ));
                    }
                },
            }
        }
    }

    /// The size bounds of the cursor: validity is unknown in advance, so the
    /// lower bound is zero and the upper bound is the underlying remaining
    /// length.
    pub fn size_hint(&self) -> (r: (usize, Option<usize>))
        requires
            self.inner().wf(),
        ensures
            r.0 == 0,
            r.1 matches Some(upper) && upper == self.inner().spec_remaining(),
    {
        let remaining = self.iter.len();
        (0, Some(remaining))
    }
}

/// The valid-only cursor is sound and complete: the sequence its successive
/// steps yield — each step takes the first valid position and continues just
/// past it — is exactly the positions with a true validity flag. So it never
/// yields a sample whose flag is false, it yields every sample whose flag is
/// true, and the yields come in strictly increasing index order.
pub proof fn lemma_valid_only_yields(validity: Seq<bool>, from: nat)
    ensures
        match first_valid_from(validity, from) {
            None => spec_valid_indices(validity, from) == Seq::<int>::empty(),
            Some(i) => spec_valid_indices(validity, from) == seq![i] + spec_valid_indices(
                validity,
                (i + 1) as nat,
            ),
        },
        forall|k: int|
            0 <= k < spec_valid_indices(validity, from).len() ==> {
                let i = #[trigger] spec_valid_indices(validity, from)[k];
                from <= i < validity.len() && validity[i]
            },
        forall|j: int|
            from <= j < validity.len() && validity[j] ==> spec_valid_indices(
                validity,
                from,
            ).contains(j),
        forall|k: int|
            0 < k < spec_valid_indices(validity, from).len() ==> spec_valid_indices(
                validity,
                from,
            )[k - 1] < #[trigger] spec_valid_indices(validity, from)[k],
    decreases validity.len() + 1 - from,
{
    lemma_first_valid_from(validity, from);
    if from >= validity.len() {
    } else {
        lemma_valid_only_yields(validity, from + 1);
        let here = spec_valid_indices(validity, from);
        let rest = spec_valid_indices(validity, from + 1);
        if validity[from as int] {
            assert(here == seq![from as int] + rest);
            assert forall|j: int|
                from <= j < validity.len() && validity[j] implies here.contains(j) by {
                if j == from {
                    assert(here[0] == j);
                } else {
                    assert(rest.contains(j));
                    let k = choose|k: int| 0 <= k < rest.len() && rest[k] == j;
                    assert(here[k + 1] == j);
                }
            }
            assert forall|k: int| 0 < k < here.len() implies here[k - 1]
                < #[trigger] here[k] by {
                if k == 1 {
                    assert(here[1] == rest[0]);
                } else {
                    assert(here[k] == rest[k - 1] && here[k - 1] == rest[k - 2]);
                }
            }
            match first_valid_from(validity, from + 1) {
                None => {
                    assert(rest =~= Seq::<int>::empty());
                },
                Some(_) => {},
            }
        } else {
            assert(here == rest);
            assert forall|j: int|
                from <= j < validity.len() && validity[j] implies here.contains(j) by {
                assert(j != from);
            }
        }
    }
}

/// What `first_valid_from` finds is the first true flag at or after `from`.
proof fn lemma_first_valid_from(validity: Seq<bool>, from: nat)
    ensures
        match first_valid_from(validity, from) {
            Some(i) => from <= i < validity.len() && validity[i] && (forall|j: int|
                from <= j < i ==> !validity[j]),
            None => forall|j: int| from <= j < validity.len() ==> !validity[j],
        },
    decreases validity.len() + 1 - from,
{
    if from >= validity.len() {
    } else if validity[from as int] {
    } else {
        lemma_first_valid_from(validity, from + 1);
    }
}

} // verus!
