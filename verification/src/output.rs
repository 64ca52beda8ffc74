//! The write side: an output handle with a generation counter, the instance
//! views whose validity is tied to it, and the write parameters with their
//! JSON form for the native boundary.

use vstd::prelude::*;

use crate::connector::SelectedValue;
use crate::invoke::{InvokeResult, WaitRequest};
use crate::result::{
    invalid_with_diag, kind_with_diag, ConnectorError, ConnectorFallible, ConnectorResult,
    ErrorKind, InvalidErrorKind,
};
use crate::text::{fmt_i64, fmt_u64, spec_dec_i64, spec_dec_u64};

verus! {

/// An output: a writer handle owned exclusively by the acquiring thread. The
/// generation counter advances once per successful publish; every instance
/// view is stamped with the generation it was created under.
#[derive(Debug)]
pub struct Output {
    /// The entity name this output was acquired under.
    name: String,
    /// How many publishes have succeeded on this output.
    generation: u64,
}

/// Two states of an output around a successful publish: the generation
/// advanced by exactly one and the handle still names the same writer.
pub open spec fn spec_published(pre: Output, post: Output) -> bool {
    &&& post.name_view() == pre.name_view()
    &&& post.generation_view() == pre.generation_view() + 1
}

impl Output {
    /// The entity name this output was acquired under.
    pub closed spec fn name_view(&self) -> Seq<char> {
        self.name@
    }

    /// How many publishes have succeeded on this output.
    pub closed spec fn generation_view(&self) -> u64 {
        self.generation
    }

    /// An output handle for the named writer, with no publishes yet.
    pub(crate) fn new(name: &str) -> (r: Output)
        ensures
            r.name_view() == name@,
            r.generation_view() == 0,
    {
        Output { name: name.to_owned(), generation: 0 }
    }

    /// The entity name this output was acquired under.
    pub fn name(&self) -> (r: &str)
        ensures
            r@ == self.name_view(),
    {
        self.name.as_str()
    }

    /// The current generation.
    pub fn generation(&self) -> (r: u64)
        ensures
            r == self.generation_view(),
    {
        self.generation
    }

    /// An instance stamped with the current generation: it stays usable
    /// exactly until the next successful publish.
    pub fn instance(&self) -> (r: Instance)
        ensures
            r.generation_view() == self.generation_view(),
            r.is_fresh(self),
    {
        Instance { generation: self.generation }
    }

    /// What a publish reply means: on success the generation advances by
    /// one, so every instance stamped earlier becomes stale; a failed
    /// publish leaves the generation — and so the buffered sample — as it
    /// was, allowing retry. The reply of the boundary's write call is
    /// translated as usual.
    pub fn write(&mut self, reply: InvokeResult<()>, last_error_message: Option<String>) -> (r:
        ConnectorFallible)
        requires
            old(self).generation_view() < u64::MAX,
        ensures
            final(self).name_view() == old(self).name_view(),
            reply.code is Success ==> (r is Ok && spec_published(*old(self), *final(self))),
            !(reply.code is Success) ==> *final(self) == *old(self),
            reply.code is Timeout ==> (r matches Err(e) && kind_with_diag(
                ErrorKind::Timeout,
                last_error_message,
                e.kind,
            ) && e.last_error_message == last_error_message),
            !(reply.code is Success) && !(reply.code is Timeout) ==> (r matches Err(e)
                && kind_with_diag(
                ErrorKind::Native { code: reply.code },
                last_error_message,
                e.kind,
            ) && e.last_error_message == last_error_message),
    {
        let result = reply.into_result(last_error_message);
        match result {
            Ok(_) => {
                self.generation = self.generation + 1;
                Ok(())
            },
            Err(e) => Err(e),
        }
    }

    /// The request for a publish with explicit parameters: the entity name
    /// and the parameters in their JSON form. Hand the boundary's reply to
    /// `write`, which advances the generation only on success.
    pub fn write_with_params(&self, params: &WriteParams) -> (r: WriteRequest)
        ensures
            r.entity@ == self.name_view(),
            r.params_json matches Some(j) && j@ == spec_params_json(*params),
    {
        WriteRequest { entity: self.name.clone(), params_json: Some(params.to_json()) }
    }

    /// What a clear-all-fields reply means: the reply is translated as
    /// usual; the generation is untouched, since nothing was published.
    pub fn clear_members(&self, reply: InvokeResult<()>, last_error_message: Option<String>)
        -> (r: ConnectorFallible)
        ensures
            reply.code is Success ==> r is Ok,
            reply.code is Timeout ==> (r matches Err(e) && kind_with_diag(
                ErrorKind::Timeout,
                last_error_message,
                e.kind,
            ) && e.last_error_message == last_error_message),
            !(reply.code is Success) && !(reply.code is Timeout) ==> (r matches Err(e)
                && kind_with_diag(
                ErrorKind::Native { code: reply.code },
                last_error_message,
                e.kind,
            ) && e.last_error_message == last_error_message),
    {
        reply.into_result(last_error_message)
    }

    /// The request for waiting until all published samples are acknowledged,
    /// with no timeout.
    pub fn wait(&self) -> (r: WaitRequest)
        ensures
            r.timeout_ms == crate::INFINITE_TIMEOUT_IN_MS,
    {
        WaitRequest { timeout_ms: crate::INFINITE_TIMEOUT_IN_MS }
    }

    /// The request for waiting until all published samples are acknowledged,
    /// with a millisecond timeout clamped to the boundary's integer width.
    pub fn wait_with_timeout(&self, timeout_ms: u64) -> (r: WaitRequest)
        ensures
            timeout_ms <= i32::MAX ==> r.timeout_ms == timeout_ms,
            timeout_ms > i32::MAX ==> r.timeout_ms == i32::MAX,
    {
        WaitRequest { timeout_ms: crate::clamp_timeout_ms(timeout_ms) }
    }

    /// The request for waiting until the number of matched subscriptions
    /// changes, with no timeout; the boundary replies with the signed change.
    pub fn wait_for_subscriptions(&self) -> (r: WaitRequest)
        ensures
            r.timeout_ms == crate::INFINITE_TIMEOUT_IN_MS,
    {
        WaitRequest { timeout_ms: crate::INFINITE_TIMEOUT_IN_MS }
    }

    /// The request for waiting until the number of matched subscriptions
    /// changes, with a millisecond timeout clamped to the boundary's width.
    pub fn wait_for_subscriptions_with_timeout(&self, timeout_ms: u64) -> (r: WaitRequest)
        ensures
            timeout_ms <= i32::MAX ==> r.timeout_ms == timeout_ms,
            timeout_ms > i32::MAX ==> r.timeout_ms == i32::MAX,
    {
        WaitRequest { timeout_ms: crate::clamp_timeout_ms(timeout_ms) }
    }

    /// What the reply listing the matched subscriptions means: the JSON text
    /// on success, the usual translation otherwise.
    pub fn display_matched_subscriptions(
        &self,
        reply: InvokeResult<Option<String>>,
        last_error_message: Option<String>,
    ) -> (r: ConnectorResult<String>)
        ensures
            reply.code is Success && reply.value is Some ==> (r matches Ok(s) && s
                == reply.value->Some_0),
            reply.code is Success && reply.value is None ==> (r matches Err(e)
                && e.last_error_message == last_error_message && invalid_with_diag(
                last_error_message,
                InvalidErrorKind::Conversion,
                "string conversion failed"@,
                e.kind,
            )),
            reply.code is Timeout ==> (r matches Err(e) && kind_with_diag(
                ErrorKind::Timeout,
                last_error_message,
                e.kind,
            ) && e.last_error_message == last_error_message),
            !(reply.code is Success) && !(reply.code is Timeout) ==> (r matches Err(e)
                && kind_with_diag(
                ErrorKind::Native { code: reply.code },
                last_error_message,
                e.kind,
            ) && e.last_error_message == last_error_message),
    {
        reply.into_string(last_error_message)
    }
}

/// A mutation view over an output's current sample, stamped with the
/// output's generation at creation time. Every access first holds the stamp
/// against the output's live generation: once a publish has advanced it, the
/// buffered sample the view pointed at no longer exists, and the access is
/// refused as stale instead of quietly touching meaningless state.
#[derive(Debug, Clone, Copy)]
pub struct Instance {
    /// The output generation this view was created under.
    generation: u64,
}

/// The request for setting one field of the buffered sample.
#[derive(Debug)]
pub struct FieldSet {
    /// The entity name of the output.
    pub entity: String,
    /// The field to set, by name.
    pub field: String,
    /// The value to set it to.
    pub value: SelectedValue,
}

/// The request for clearing one field of the buffered sample.
#[derive(Debug)]
pub struct FieldClear {
    /// The entity name of the output.
    pub entity: String,
    /// The field to clear, by name.
    pub field: String,
}

/// The request for assigning the whole buffered sample from JSON text.
#[derive(Debug)]
pub struct InstanceJson {
    /// The entity name of the output.
    pub entity: String,
    /// The composite value as JSON text.
    pub json: String,
}

/// The request for reading the whole buffered sample as JSON text.
#[derive(Debug)]
pub struct InstanceQuery {
    /// The entity name of the output.
    pub entity: String,
}

/// The request for a publish.
#[derive(Debug)]
pub struct WriteRequest {
    /// The entity name of the output.
    pub entity: String,
    /// The write parameters as JSON text, if any were given.
    pub params_json: Option<String>,
}

/// The refusal every access through a stale instance ends in: a staleness
/// error naming the publish that invalidated the view.
pub open spec fn is_stale_refusal(e: &ConnectorError) -> bool {
    &&& e.kind matches ErrorKind::Stale { context } && context@
        == "Instance invalidated by Output::write or Output::write_with_params"@
    &&& e.last_error_message is None
}

impl Instance {
    /// The output generation this view was created under.
    pub closed spec fn generation_view(&self) -> u64 {
        self.generation
    }

    /// Whether this view still matches the output's live generation.
    pub open spec fn is_fresh(&self, output: &Output) -> bool {
        self.generation_view() == output.generation_view()
    }

    /// The staleness check every access makes first.
    fn check_fresh(&self, output: &Output) -> (r: ConnectorFallible)
        ensures
            self.is_fresh(output) <==> r is Ok,
            !self.is_fresh(output) ==> (r matches Err(e) && is_stale_refusal(&e)),
    {
        if self.generation != output.generation() {
            Err(
                ConnectorError::from_kind(
                    ErrorKind::stale_entity_error(
                        "Instance invalidated by Output::write or Output::write_with_params",
                    ),
                    None,
                ),
            )
        } else {
            Ok(())
        }
    }

    /// The request for clearing one field, refused as stale once the output
    /// has published.
    pub fn clear(&self, output: &Output, field: &str) -> (r: ConnectorResult<FieldClear>)
        ensures
            !self.is_fresh(output) ==> (r matches Err(e) && is_stale_refusal(&e)),
            self.is_fresh(output) ==> (r matches Ok(c) && c.entity@ == output.name_view()
                && c.field@ == field@),
    {
        self.check_fresh(output)?;
        Ok(FieldClear { entity: output.name().to_owned(), field: field.to_owned() })
    }

    /// The request for assigning the whole sample from JSON text, refused as
    /// stale once the output has published.
    pub fn set_as_json(&self, output: &Output, json_value: &str) -> (r: ConnectorResult<
        InstanceJson,
    >)
        ensures
            !self.is_fresh(output) ==> (r matches Err(e) && is_stale_refusal(&e)),
            self.is_fresh(output) ==> (r matches Ok(c) && c.entity@ == output.name_view()
                && c.json@ == json_value@),
    {
        self.check_fresh(output)?;
        Ok(InstanceJson { entity: output.name().to_owned(), json: json_value.to_owned() })
    }

    /// The request for setting one field to a tagged value, refused as stale
    /// once the output has published.
    pub fn set_value(&self, output: &Output, field: &str, value: SelectedValue) -> (r:
        ConnectorResult<FieldSet>)
        ensures
            !self.is_fresh(output) ==> (r matches Err(e) && is_stale_refusal(&e)),
            self.is_fresh(output) ==> (r matches Ok(c) && c.entity@ == output.name_view()
                && c.field@ == field@ && c.value == value),
    {
        self.check_fresh(output)?;
        Ok(
            FieldSet {
                entity: output.name().to_owned(),
                field: field.to_owned(),
                value,
            },
        )
    }

    /// The request for setting one numeric field; the value is the bit
    /// pattern of the boundary's double-precision representation. Refused as
    /// stale once the output has published.
    pub fn set_number(&self, output: &Output, field: &str, value_bits: u64) -> (r:
        ConnectorResult<FieldSet>)
        ensures
            !self.is_fresh(output) ==> (r matches Err(e) && is_stale_refusal(&e)),
            self.is_fresh(output) ==> (r matches Ok(c) && c.entity@ == output.name_view()
                && c.field@ == field@ && c.value == SelectedValue::Number(value_bits)),
    {
        self.set_value(output, field, SelectedValue::Number(value_bits))
    }

    /// The request for setting one boolean field, refused as stale once the
    /// output has published.
    pub fn set_boolean(&self, output: &Output, field: &str, value: bool) -> (r: ConnectorResult<
        FieldSet,
    >)
        ensures
            !self.is_fresh(output) ==> (r matches Err(e) && is_stale_refusal(&e)),
            self.is_fresh(output) ==> (r matches Ok(c) && c.entity@ == output.name_view()
                && c.field@ == field@ && c.value == SelectedValue::Boolean(value)),
    {
        self.set_value(output, field, SelectedValue::Boolean(value))
    }

    /// The request for setting one string field, refused as stale once the
    /// output has published.
    pub fn set_string(&self, output: &Output, field: &str, value: &str) -> (r: ConnectorResult<
        FieldSet,
    >)
        ensures
            !self.is_fresh(output) ==> (r matches Err(e) && is_stale_refusal(&e)),
            self.is_fresh(output) ==> (r matches Ok(c) && c.entity@ == output.name_view()
                && c.field@ == field@ && (c.value matches SelectedValue::String(s) && s@
                == value@)),
    {
        self.set_value(output, field, SelectedValue::String(value.to_owned()))
    }

    /// The request for reading the whole buffered sample as JSON text,
    /// refused as stale once the output has published.
    pub fn get_as_json(&self, output: &Output) -> (r: ConnectorResult<InstanceQuery>)
        ensures
            !self.is_fresh(output) ==> (r matches Err(e) && is_stale_refusal(&e)),
            self.is_fresh(output) ==> (r matches Ok(c) && c.entity@ == output.name_view()),
    {
        self.check_fresh(output)?;
        Ok(InstanceQuery { entity: output.name().to_owned() })
    }
}

/// After a successful publish, every instance obtained strictly before it —
/// its stamp is at most the generation the publish started from — is stale
/// on the published output, so each further mutation or read through it is
/// refused; an instance obtained strictly after the publish is fresh and its
/// accesses are accepted.
pub proof fn lemma_publish_invalidates_prior_instances(
    pre: Output,
    post: Output,
    older: Instance,
    newer: Instance,
)
    requires
        spec_published(pre, post),
        older.generation_view() <= pre.generation_view(),
        newer.generation_view() == post.generation_view(),
    ensures
        !older.is_fresh(&post),
        newer.is_fresh(&post),
{
}

/// What a publish does to a sample: write it, dispose it by its key fields,
/// or unregister it by its key fields.
#[derive(Debug, Clone, Copy, PartialEq, Eq, Structural)]
pub enum WriteParamsAction {
    /// Publish the sample and its contents.
    Write,
    /// Dispose the instance the sample's key fields name.
    Dispose,
    /// Unregister the instance the sample's key fields name.
    Unregister,
}

/// The identity of a written sample: the writer's sixteen-byte identifier
/// and a sequence number.
#[derive(Debug, Clone, PartialEq, Eq)]
pub struct WriteParamsIdentity {
    /// The writer's identifier, as sixteen bytes.
    pub writer_guid: [u8; 16],
    /// The sequence number of the sample.
    pub sequence_number: u64,
}

/// Parameters for a publish: the action, an optional source timestamp in
/// nanoseconds, an optional sample identity, and an optional related
/// identity for request-reply correlation. Absent parameters are left out of
/// the JSON form.
#[derive(Debug, Clone, PartialEq, Eq)]
pub struct WriteParams {
    /// The action to perform; the boundary's default is a plain write.
    pub action: Option<WriteParamsAction>,
    /// The source timestamp: a total number of nanoseconds.
    pub source_timestamp: Option<i64>,
    /// The identity that names this sample.
    pub identity: Option<WriteParamsIdentity>,
    /// The identity of the sample this one replies to.
    pub related_sample_identity: Option<WriteParamsIdentity>,
}

/// The JSON spelling of an action.
pub open spec fn spec_action_json(a: WriteParamsAction) -> Seq<char> {
    match a {
        WriteParamsAction::Write => "\"write\""@,
        WriteParamsAction::Dispose => "\"dispose\""@,
        WriteParamsAction::Unregister => "\"unregister\""@,
    }
}

/// The decimal spellings of the bytes from position `i` on, separated by
/// commas.
pub open spec fn spec_bytes_from(bytes: Seq<u8>, i: int) -> Seq<char>
    decreases bytes.len() - i,
{
    if i < 0 || i >= bytes.len() {
        Seq::empty()
    } else if i == bytes.len() - 1 {
        spec_dec_u64(bytes[i] as nat)
    } else {
        spec_dec_u64(bytes[i] as nat) + ","@ + spec_bytes_from(bytes, i + 1)
    }
}

/// The JSON spelling of a sample identity.
pub open spec fn spec_identity_json(id: WriteParamsIdentity) -> Seq<char> {
    "{\"writer_guid\":["@ + spec_bytes_from(id.writer_guid@, 0) + "],\"sequence_number\":"@
        + spec_dec_u64(id.sequence_number as nat) + "}"@
}

/// The members present in the JSON form of the parameters, in order.
pub open spec fn spec_params_members(p: WriteParams) -> Seq<Seq<char>> {
    let with_action = match p.action {
        Some(a) => seq!["\"action\":"@ + spec_action_json(a)],
        None => Seq::empty(),
    };
    let with_timestamp = match p.source_timestamp {
        Some(t) => with_action.push("\"source_timestamp\":"@ + spec_dec_i64(t as int)),
        None => with_action,
    };
    let with_identity = match p.identity {
        Some(id) => with_timestamp.push("\"identity\":"@ + spec_identity_json(id)),
        None => with_timestamp,
    };
    match p.related_sample_identity {
        Some(id) => with_identity.push(
            "\"related_sample_identity\":"@ + spec_identity_json(id),
        ),
        None => with_identity,
    }
}

/// Pieces joined with commas between them.
pub open spec fn spec_join_comma(items: Seq<Seq<char>>) -> Seq<char>
    decreases items.len(),
{
    if items.len() == 0 {
        Seq::empty()
    } else if items.len() == 1 {
        items[0]
    } else {
        items[0] + ","@ + spec_join_comma(items.drop_first())
    }
}

/// The JSON form of the parameters: an object holding the present members in
/// declaration order, and nothing else.
pub open spec fn spec_params_json(p: WriteParams) -> Seq<char> {
    "{"@ + spec_join_comma(spec_params_members(p)) + "}"@
}

/// The decimal spellings of the bytes from position `i` on, separated by
/// commas.
fn fmt_bytes_from(bytes: &[u8; 16], i: usize) -> (s: String)
    requires
        i <= 16,
    ensures
        s@ == spec_bytes_from(bytes@, i as int),
    decreases 16 - i,
{
    if i >= 16 {
        String::new()
    } else if i == 15 {
        fmt_u64(bytes[i] as u64)
    } else {
        let mut s = fmt_u64(bytes[i] as u64);
        s.append(",");
        s.append(fmt_bytes_from(bytes, i + 1).as_str());
        proof {
            assert(s@ =~= spec_bytes_from(bytes@, i as int));
        }
        s
    }
}

impl WriteParamsIdentity {
    /// The JSON spelling of this identity.
    pub fn to_json(&self) -> (s: String)
        ensures
            s@ == spec_identity_json(*self),
    {
        let mut s = "{\"writer_guid\":[".to_owned();
        s.append(fmt_bytes_from(&self.writer_guid, 0).as_str());
        s.append("],\"sequence_number\":");
        s.append(fmt_u64(self.sequence_number).as_str());
        s.append("}");
        proof {
            assert(s@ =~= spec_identity_json(*self));
        }
        s
    }
}

impl Default for WriteParamsIdentity {
    /// An all-zero identity.
    fn default() -> (r: Self)
        ensures
            r.writer_guid@ =~= Seq::new(16, |i: int| 0u8),
            r.sequence_number == 0,
    {
        WriteParamsIdentity { writer_guid: [0; 16], sequence_number: 0 }
    }
}

impl Default for WriteParams {
    /// Parameters with nothing set: the boundary applies its defaults.
    fn default() -> (r: Self)
        ensures
            r.action is None,
            r.source_timestamp is None,
            r.identity is None,
            r.related_sample_identity is None,
    {
        WriteParams {
            action: None,
            source_timestamp: None,
            identity: None,
            related_sample_identity: None,
        }
    }
}

impl WriteParams {
    /// Parameters for a plain write.
    pub fn write() -> (r: Self)
        ensures
            r.action == Some(WriteParamsAction::Write),
            r.source_timestamp is None,
            r.identity is None,
            r.related_sample_identity is None,
    {
        WriteParams {
            action: Some(WriteParamsAction::Write),
            source_timestamp: None,
            identity: None,
            related_sample_identity: None,
        }
    }

    /// Parameters for a dispose.
    pub fn dispose() -> (r: Self)
        ensures
            r.action == Some(WriteParamsAction::Dispose),
            r.source_timestamp is None,
            r.identity is None,
            r.related_sample_identity is None,
    {
        WriteParams {
            action: Some(WriteParamsAction::Dispose),
            source_timestamp: None,
            identity: None,
            related_sample_identity: None,
        }
    }

    /// Parameters for an unregister.
    pub fn unregister() -> (r: Self)
        ensures
            r.action == Some(WriteParamsAction::Unregister),
            r.source_timestamp is None,
            r.identity is None,
            r.related_sample_identity is None,
    {
        WriteParams {
            action: Some(WriteParamsAction::Unregister),
            source_timestamp: None,
            identity: None,
            related_sample_identity: None,
        }
    }

    /// The same parameters with the source timestamp set.
    pub fn with_source_timestamp(self, timestamp: i64) -> (r: Self)
        ensures
            r.action == self.action,
            r.source_timestamp == Some(timestamp),
            r.identity == self.identity,
            r.related_sample_identity == self.related_sample_identity,
    {
        WriteParams { source_timestamp: Some(timestamp), ..self }
    }

    /// The same parameters with the sample identity set.
    pub fn with_identity(self, identity: WriteParamsIdentity) -> (r: Self)
        ensures
            r.action == self.action,
            r.source_timestamp == self.source_timestamp,
            r.identity == Some(identity),
            r.related_sample_identity == self.related_sample_identity,
    {
        WriteParams { identity: Some(identity), ..self }
    }

    /// The same parameters with the related sample identity set.
    pub fn with_related_sample_identity(self, related_sample_identity: WriteParamsIdentity)
        -> (r: Self)
        ensures
            r.action == self.action,
            r.source_timestamp == self.source_timestamp,
            r.identity == self.identity,
            r.related_sample_identity == Some(related_sample_identity),
    {
        WriteParams { related_sample_identity: Some(related_sample_identity), ..self }
    }

    /// The JSON form of these parameters, exactly as the boundary takes it.
    pub fn to_json(&self) -> (s: String)
        ensures
            s@ == spec_params_json(*self),
    {
        let mut members: Vec<String> = Vec::new();
        match &self.action {
            Some(a) => {
                let mut m = "\"action\":".to_owned();
                match a {
                    WriteParamsAction::Write => m.append("\"write\""),
                    WriteParamsAction::Dispose => m.append("\"dispose\""),
                    WriteParamsAction::Unregister => m.append("\"unregister\""),
                }
                proof {
                    assert(m@ =~= "\"action\":"@ + spec_action_json(self.action->Some_0));
                }
                members.push(m);
            },
            None => {},
        }
        match &self.source_timestamp {
            Some(t) => {
                let mut m = "\"source_timestamp\":".to_owned();
                m.append(fmt_i64(*t).as_str());
                proof {
                    assert(m@ =~= "\"source_timestamp\":"@ + spec_dec_i64(
                        self.source_timestamp->Some_0 as int,
                    ));
                }
                members.push(m);
            },
            None => {},
        }
        match &self.identity {
            Some(id) => {
                let mut m = "\"identity\":".to_owned();
                m.append(id.to_json().as_str());
                proof {
                    assert(m@ =~= "\"identity\":"@ + spec_identity_json(
                        self.identity->Some_0,
                    ));
                }
                members.push(m);
            },
            None => {},
        }
        match &self.related_sample_identity {
            Some(id) => {
                let mut m = "\"related_sample_identity\":".to_owned();
                m.append(id.to_json().as_str());
                proof {
                    assert(m@ =~= "\"related_sample_identity\":"@ + spec_identity_json(
                        self.related_sample_identity->Some_0,
                    ));
                }
                members.push(m);
            },
            None => {},
        }
        proof {
            assert(members@.map_values(|m: String| m@) =~= spec_params_members(*self));
        }
        let mut s = "{".to_owned();
        s.append(join_comma(&members).as_str());
        s.append("}");
        proof {
            assert(s@ =~= spec_params_json(*self));
        }
        s
    }
}

/// Pieces joined with commas between them.
fn join_comma(items: &Vec<String>) -> (s: String)
    ensures
        s@ == spec_join_comma(items@.map_values(|m: String| m@)),
{
    let mut s = String::new();
    let mut i: usize = 0;
    while i < items.len()
        invariant
            i <= items@.len(),
            s@ == spec_join_comma(items@.map_values(|m: String| m@).take(i as int)),
        decreases items@.len() - i,
    {
        if i > 0 {
            s.append(",");
        }
        s.append(items[i].as_str());
        proof {
            let views = items@.map_values(|m: String| m@);
            lemma_join_comma_snoc(views, i as int);
            assert(s@ =~= spec_join_comma(views.take(i + 1)));
        }
        i += 1;
    }
    proof {
        assert(items@.map_values(|m: String| m@).take(items@.len() as int) =~= items@.map_values(
            |m: String| m@,
        ));
    }
    s
}

/// Joining one more piece onto a list appends a comma (when anything came
/// before it) and the piece.
pub proof fn lemma_join_comma_push(ms: Seq<Seq<char>>, x: Seq<char>)
    ensures
        ms.len() == 0 ==> spec_join_comma(ms.push(x)) == x,
        ms.len() > 0 ==> spec_join_comma(ms.push(x)) == spec_join_comma(ms) + ","@ + x,
{
    let items = ms.push(x);
    lemma_join_comma_snoc(items, ms.len() as int);
    assert(items.take(ms.len() as int) =~= ms);
    assert(items.take(ms.len() as int + 1) =~= items);
}

/// Joining one more piece appends a comma (when anything came before it) and
/// the piece.
pub proof fn lemma_join_comma_snoc(items: Seq<Seq<char>>, i: int)
    requires
        0 <= i < items.len(),
    ensures
        i == 0 ==> spec_join_comma(items.take(1)) == items[0],
        i > 0 ==> spec_join_comma(items.take(i + 1)) == spec_join_comma(items.take(i)) + ","@
            + items[i],
    decreases i,
{
    if i == 0 {
        assert(items.take(1).len() == 1);
        assert(items.take(1)[0] == items[0]);
    } else {
        lemma_join_comma_snoc(items.drop_first(), i - 1);
        let t1 = items.take(i + 1);
        let t0 = items.take(i);
        assert(t1.len() == i + 1);
        assert(t1.drop_first() =~= items.drop_first().take(i));
        assert(t0.drop_first() =~= items.drop_first().take(i - 1));
        if i == 1 {
            assert(spec_join_comma(t1) == t1[0] + ","@ + spec_join_comma(t1.drop_first()));
            assert(spec_join_comma(items.drop_first().take(1)) == items.drop_first()[0]);
            assert(spec_join_comma(t0) == items[0]);
            assert(spec_join_comma(t1) =~= spec_join_comma(t0) + ","@ + items[1]);
        } else {
            assert(spec_join_comma(t1) == t1[0] + ","@ + spec_join_comma(t1.drop_first()));
            assert(spec_join_comma(t0) == t0[0] + ","@ + spec_join_comma(t0.drop_first()));
            assert(items.drop_first()[i - 1] == items[i]);
            assert(spec_join_comma(t1) =~= spec_join_comma(t0) + ","@ + items[i]);
        }
    }
}

} // verus!
