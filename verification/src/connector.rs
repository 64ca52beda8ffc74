//! The connector and its registries: name-keyed, thread-exclusive acquisition
//! of input and output handles.
//!
//! A registry records which entity names currently have a live handle. A
//! handle is granted only for a name that resolves to a real entity and has
//! no outstanding record; releasing removes the record. The blocking variant
//! of acquisition never waits here — it reports that the caller must wait and
//! retry, so the registry's decisions stay checkable while the actual
//! blocking (a condition variable) lives with the surrounding runtime code.

use vstd::prelude::*;

use crate::input::Input;
use crate::output::Output;
use crate::result::{
    BusyErrorKind, ConnectorError, ConnectorFallible, ConnectorResult, ErrorKind,
    NotFoundErrorKind,
};
use crate::text::str_eq;

verus! {

/// A scalar field value: the only primitive variants the native boundary
/// exposes for typed get and set. Composite values cross the boundary as
/// JSON text in the `String` variant.
#[derive(Debug, Clone, PartialEq)]
pub enum SelectedValue {
    /// A numeric value, carried as the bit pattern of the boundary's
    /// double-precision representation.
    Number(u64),
    /// A boolean value.
    Boolean(bool),
    /// A string value.
    String(String),
}

/// How an acquisition should behave when the name is already held.
#[derive(Debug, Clone, Copy, PartialEq, Eq, Structural)]
pub enum BlockingBehavior {
    /// Fail immediately if the entity is not available.
    NonBlocking,
    /// Wait until the entity becomes available.
    BlockForever,
}

/// The decision of one acquisition attempt.
#[derive(Debug)]
pub enum Acquisition<T> {
    /// The name was free: the handle is granted and the name is now held.
    Granted(T),
    /// The name is held and the caller chose to block: it must wait for a
    /// release and then retry the whole acquisition.
    MustWait,
    /// The acquisition failed.
    Refused(ConnectorError),
}

/// A registry of entity names with a live handle.
#[derive(Debug)]
pub struct EntityRegistry {
    /// What the entities are called in error texts.
    label: String,
    /// The names that currently have a live handle, each at most once.
    held: Vec<String>,
}

/// Two states of a registry around a grant of `name`: the name is held after,
/// and no other name changed.
pub open spec fn spec_granted(pre: EntityRegistry, post: EntityRegistry, name: Seq<char>) -> bool {
    &&& post.holds(name)
    &&& forall|m: Seq<char>| m != name ==> post.holds(m) == pre.holds(m)
}

/// Two states of a registry around a release of `name`: the name is free
/// after, and no other name changed.
pub open spec fn spec_released(pre: EntityRegistry, post: EntityRegistry, name: Seq<char>) -> bool {
    &&& !post.holds(name)
    &&& forall|m: Seq<char>| m != name ==> post.holds(m) == pre.holds(m)
}

/// Whether an acquisition attempt grants a handle: only for a name that
/// resolves to a real entity and is not already held.
pub open spec fn spec_grants(r: EntityRegistry, name: Seq<char>, entity_exists: bool) -> bool {
    entity_exists && !r.holds(name)
}

impl EntityRegistry {
    /// Whether a live handle exists for `name`.
    pub closed spec fn holds(&self, name: Seq<char>) -> bool {
        exists|i: int| 0 <= i < self.held@.len() && self.held@[i]@ == name
    }

    /// What the registry's entities are called in error texts.
    pub closed spec fn label_view(&self) -> Seq<char> {
        self.label@
    }

    /// The registry invariant: each name has at most one record.
    pub closed spec fn wf(&self) -> bool {
        forall|i: int, j: int|
            0 <= i < j < self.held@.len() ==> self.held@[i]@ != self.held@[j]@
    }

    /// An empty registry whose entities are called `label` in error texts.
    pub fn new(label: &str) -> (r: EntityRegistry)
        ensures
            r.wf(),
            r.label_view() == label@,
            forall|n: Seq<char>| !r.holds(n),
    {
        EntityRegistry { label: label.to_owned(), held: Vec::new() }
    }

    /// The record index for `name`, if one exists.
    fn index_of(&self, name: &str) -> (r: Option<usize>)
        ensures
            r matches Some(i) ==> i < self.held@.len() && self.held@[i as int]@ == name@,
            r is None ==> !self.holds(name@),
    {
        let mut i: usize = 0;
        while i < self.held.len()
            invariant
                i <= self.held@.len(),
                forall|j: int| 0 <= j < i ==> self.held@[j]@ != name@,
            decreases self.held@.len() - i,
        {
            if str_eq(self.held[i].as_str(), name) {
                return Some(i);
            }
            i += 1;
        }
        None
    }

    /// Decide one acquisition attempt for `name`. `entity_exists` says
    /// whether the name resolves to a real entity of the native boundary;
    /// it is checked first, so an unknown name is refused as not found even
    /// while another thread holds it. A held name is refused as busy under
    /// `NonBlocking` and told to wait under `BlockForever`; a free name is
    /// granted and recorded.
    pub fn acquire_entity(&mut self, name: &str, entity_exists: bool, behavior: BlockingBehavior)
        -> (r: Acquisition<()>)
        requires
            old(self).wf(),
        ensures
            final(self).wf(),
            final(self).label_view() == old(self).label_view(),
            !entity_exists ==> (r matches Acquisition::Refused(e) && e.kind
                matches ErrorKind::NotFound { what: NotFoundErrorKind::Entity, name: n } && n@
                == name@ && e.last_error_message is None && *final(self) == *old(self)),
            entity_exists && old(self).holds(name@) && behavior is NonBlocking ==> (r matches
                Acquisition::Refused(e) && e.kind matches ErrorKind::Busy {
                resource: BusyErrorKind::Entity,
                context,
            } && context@ == old(self).label_view() + " '"@ + name@ + "' already in use"@
                && e.last_error_message is None && *final(self) == *old(self)),
            entity_exists && old(self).holds(name@) && behavior is BlockForever ==> (r is MustWait
                && *final(self) == *old(self)),
            spec_grants(*old(self), name@, entity_exists) ==> (r matches Acquisition::Granted(u)
                && spec_granted(*old(self), *final(self), name@)),
    {
        if !entity_exists {
            return Acquisition::Refused(
                ConnectorError::from_kind(ErrorKind::entity_not_found_error(name), None),
            );
        }
        match self.index_of(name) {
            Some(_) => match behavior {
                BlockingBehavior::NonBlocking => {
                    let mut context = self.label.clone();
                    context.append(" '");
                    context.append(name);
                    context.append("' already in use");
                    proof {
                        assert(context@ =~= self.label_view() + " '"@ + name@
                            + "' already in use"@);
                        assert(self.holds(name@));
                    }
                    Acquisition::Refused(
                        ConnectorError::from_kind(
                            ErrorKind::Busy {
                                resource: BusyErrorKind::Entity,
                                context,
                            },
                            None,
                        ),
                    )
                },
                BlockingBehavior::BlockForever => {
                    proof {
                        assert(self.holds(name@));
                    }
                    Acquisition::MustWait
                },
            },
            None => {
                self.held.push(name.to_owned());
                proof {
                    let held = self.held@;
                    let pre = old(self).held@;
                    let n = held.len() - 1;
                    assert(held[n]@ == name@);
                    assert forall|i: int, j: int| 0 <= i < j < held.len() implies held[i]@
                        != held[j]@ by {
                        if j < n {
                        } else {
                            assert(held[i]@ != name@);
                        }
                    }
                    assert(self.holds(name@));
                    assert forall|m: Seq<char>| m != name@ implies self.holds(m) == old(
                        self,
                    ).holds(m) by {
                        if old(self).holds(m) {
                            let k = choose|k: int| 0 <= k < pre.len() && pre[k]@ == m;
                            assert(held[k]@ == m);
                        }
                        if self.holds(m) {
                            let k = choose|k: int| 0 <= k < held.len() && held[k]@ == m;
                            assert(k != n);
                            assert(pre[k]@ == m);
                        }
                    }
                }
                Acquisition::Granted(())
            },
        }
    }

    /// Remove the record for `name`, making the name available again. A name
    /// with no record is refused as busy (a double release).
    pub fn release_entity(&mut self, name: &str) -> (r: ConnectorFallible)
        requires
            old(self).wf(),
        ensures
            final(self).wf(),
            final(self).label_view() == old(self).label_view(),
            old(self).holds(name@) ==> (r is Ok && spec_released(
                *old(self),
                *final(self),
                name@,
            )),
            !old(self).holds(name@) ==> (r matches Err(e) && e.kind matches ErrorKind::Busy {
                resource: BusyErrorKind::Entity,
                context,
            } && context@ == old(self).label_view() + " named '"@ + name@
                + "' not found or already released"@ && e.last_error_message is None
                && *final(self) == *old(self)),
    {
        match self.index_of(name) {
            None => {
                let mut context = self.label.clone();
                context.append(" named '");
                context.append(name);
                context.append("' not found or already released");
                proof {
                    assert(context@ =~= self.label_view() + " named '"@ + name@
                        + "' not found or already released"@);
                }
                Err(
                    ConnectorError::from_kind(
                        ErrorKind::Busy { resource: BusyErrorKind::Entity, context },
                        None,
                    ),
                )
            },
            Some(i) => {
                let ghost pre = self.held@;
                self.held.remove(i);
                proof {
                    let held = self.held@;
                    assert forall|a: int, b: int| 0 <= a < b < held.len() implies held[a]@
                        != held[b]@ by {
                        let pa = if a < i { a } else { a + 1 };
                        let pb = if b < i { b } else { b + 1 };
                        assert(held[a] == pre[pa]);
                        assert(held[b] == pre[pb]);
                    }
                    assert forall|m: Seq<char>| m != name@ implies final(self).holds(m)
                        == old(self).holds(m) by {
                        if old(self).holds(m) {
                            let k = choose|k: int|
                                0 <= k < pre.len() && pre[k]@ == m;
                            if k < i {
                                assert(held[k]@ == m);
                            } else {
                                assert(k != i);
                                assert(held[k - 1]@ == m);
                            }
                        }
                        if final(self).holds(m) {
                            let k = choose|k: int|
                                0 <= k < held.len() && held[k]@ == m;
                            if k < i {
                                assert(pre[k]@ == m);
                            } else {
                                assert(pre[k + 1]@ == m);
                            }
                        }
                    }
                    assert forall|k: int| 0 <= k < held.len() implies held[k]@ != name@ by {
                        if k < i {
                            assert(pre[k]@ != pre[i as int]@);
                        } else {
                            assert(pre[k + 1]@ != pre[i as int]@);
                        }
                    }
                }
                Ok(())
            },
        }
    }
}

/// For any name, at most one live handle exists at any instant: a handle is
/// granted only while no record for the name exists, the grant creates the
/// record, and only a release of that very name removes it — so a second
/// grant cannot precede the first holder's release, whichever thread asks.
pub proof fn lemma_exclusive_handles(s0: EntityRegistry, s1: EntityRegistry, n: Seq<char>)
    requires
        spec_grants(s0, n, true),
        spec_granted(s0, s1, n),
    ensures
        !spec_grants(s1, n, true),
        !spec_grants(s1, n, false),
        forall|s2: EntityRegistry, m: Seq<char>|
            m != n && #[trigger] spec_released(s1, s2, m) ==> !spec_grants(s2, n, true),
{
}

/// Blocking acquisition unblocks exactly at a release: while a name is held,
/// a `BlockForever` attempt must wait; once the holder releases, the name is
/// free and the first retrying waiter is granted; after that grant the name
/// is held again, so every other waiter must re-block.
pub proof fn lemma_one_waiter_wins(
    held_state: EntityRegistry,
    after_release: EntityRegistry,
    after_grant: EntityRegistry,
    n: Seq<char>,
)
    requires
        held_state.holds(n),
        spec_released(held_state, after_release, n),
        spec_granted(after_release, after_grant, n),
    ensures
        !spec_grants(held_state, n, true),
        spec_grants(after_release, n, true),
        !spec_grants(after_grant, n, true),
{
}

/// The connector: the top-level context of one named configuration, with a
/// registry of live input handles and a registry of live output handles.
#[derive(Debug)]
pub struct Connector {
    /// The name of the configuration this connector was created from.
    name: String,
    /// The registry of live input handles.
    inputs: EntityRegistry,
    /// The registry of live output handles.
    outputs: EntityRegistry,
}

impl Connector {
    /// The configuration name this connector was created from.
    pub closed spec fn name_view(&self) -> Seq<char> {
        self.name@
    }

    /// Whether a live input handle exists for `name`.
    pub closed spec fn holds_input(&self, name: Seq<char>) -> bool {
        self.inputs.holds(name)
    }

    /// Whether a live output handle exists for `name`.
    pub closed spec fn holds_output(&self, name: Seq<char>) -> bool {
        self.outputs.holds(name)
    }

    /// Both registries satisfy their invariant.
    pub closed spec fn wf(&self) -> bool {
        self.inputs.wf() && self.outputs.wf()
    }

    /// A connector for the named configuration, with no live handles.
    pub fn new(config_name: &str) -> (r: Connector)
        ensures
            r.wf(),
            r.name_view() == config_name@,
            forall|n: Seq<char>| !r.holds_input(n),
            forall|n: Seq<char>| !r.holds_output(n),
    {
        Connector {
            name: config_name.to_owned(),
            inputs: EntityRegistry::new("Input"),
            outputs: EntityRegistry::new("Output"),
        }
    }

    /// The configuration name.
    pub fn name(&self) -> (r: &str)
        ensures
            r@ == self.name_view(),
    {
        self.name.as_str()
    }

    /// Acquire the named input without blocking. `entity_exists` says whether
    /// the native boundary resolves the name to a reader. Fails not-found for
    /// an unknown name, busy for a held one; otherwise grants the handle.
    pub fn get_input(&mut self, name: &str, entity_exists: bool) -> (r: ConnectorResult<Input>)
        requires
            old(self).wf(),
        ensures
            final(self).wf(),
            final(self).name_view() == old(self).name_view(),
            forall|m: Seq<char>| final(self).holds_output(m) == old(self).holds_output(m),
            !entity_exists ==> (r matches Err(e) && e.kind matches ErrorKind::NotFound {
                what: NotFoundErrorKind::Entity,
                name: n,
            } && n@ == name@ && forall|m: Seq<char>|
                final(self).holds_input(m) == old(self).holds_input(m)),
            entity_exists && old(self).holds_input(name@) ==> (r matches Err(e) && e.kind
                matches ErrorKind::Busy { resource: BusyErrorKind::Entity, .. } && forall|
                m: Seq<char>,
            | final(self).holds_input(m) == old(self).holds_input(m)),
            entity_exists && !old(self).holds_input(name@) ==> (r matches Ok(input)
                && input.name_view() == name@ && final(self).holds_input(name@) && forall|
                m: Seq<char>,
            | m != name@ ==> final(self).holds_input(m) == old(self).holds_input(m)),
    {
        match self.inputs.acquire_entity(name, entity_exists, BlockingBehavior::NonBlocking) {
            Acquisition::Granted(_) => Ok(Input::new(name)),
            Acquisition::Refused(e) => Err(e),
            Acquisition::MustWait => unreached(),
        }
    }

    /// Acquire the named input, blocking until it is available: the decision
    /// step of the wait-and-retry loop. `MustWait` tells the caller to wait
    /// for a release and retry the whole acquisition, re-checking existence.
    pub fn take_input(&mut self, name: &str, entity_exists: bool) -> (r: Acquisition<Input>)
        requires
            old(self).wf(),
        ensures
            final(self).wf(),
            final(self).name_view() == old(self).name_view(),
            forall|m: Seq<char>| final(self).holds_output(m) == old(self).holds_output(m),
            !entity_exists ==> (r matches Acquisition::Refused(e) && e.kind
                matches ErrorKind::NotFound { what: NotFoundErrorKind::Entity, name: n } && n@
                == name@ && forall|m: Seq<char>|
                final(self).holds_input(m) == old(self).holds_input(m)),
            entity_exists && old(self).holds_input(name@) ==> (r is MustWait && forall|
                m: Seq<char>,
            | final(self).holds_input(m) == old(self).holds_input(m)),
            entity_exists && !old(self).holds_input(name@) ==> (r matches Acquisition::Granted(
                input,
            ) && input.name_view() == name@ && final(self).holds_input(name@) && forall|
                m: Seq<char>,
            | m != name@ ==> final(self).holds_input(m) == old(self).holds_input(m)),
    {
        match self.inputs.acquire_entity(name, entity_exists, BlockingBehavior::BlockForever) {
            Acquisition::Granted(_) => Acquisition::Granted(Input::new(name)),
            Acquisition::Refused(e) => Acquisition::Refused(e),
            Acquisition::MustWait => Acquisition::MustWait,
        }
    }

    /// Release the named input, making it available to other threads. Fails
    /// busy if no live handle exists (a double release).
    pub fn release_input(&mut self, name: &str) -> (r: ConnectorFallible)
        requires
            old(self).wf(),
        ensures
            final(self).wf(),
            final(self).name_view() == old(self).name_view(),
            forall|m: Seq<char>| final(self).holds_output(m) == old(self).holds_output(m),
            old(self).holds_input(name@) ==> (r is Ok && !final(self).holds_input(name@)
                && forall|m: Seq<char>|
                m != name@ ==> final(self).holds_input(m) == old(self).holds_input(m)),
            !old(self).holds_input(name@) ==> (r matches Err(e) && e.kind
                matches ErrorKind::Busy { resource: BusyErrorKind::Entity, .. } && forall|
                m: Seq<char>,
            | final(self).holds_input(m) == old(self).holds_input(m)),
    {
        self.inputs.release_entity(name)
    }

    /// Acquire the named output without blocking; as `get_input`, for the
    /// writer side.
    pub fn get_output(&mut self, name: &str, entity_exists: bool) -> (r: ConnectorResult<Output>)
        requires
            old(self).wf(),
        ensures
            final(self).wf(),
            final(self).name_view() == old(self).name_view(),
            forall|m: Seq<char>| final(self).holds_input(m) == old(self).holds_input(m),
            !entity_exists ==> (r matches Err(e) && e.kind matches ErrorKind::NotFound {
                what: NotFoundErrorKind::Entity,
                name: n,
            } && n@ == name@ && forall|m: Seq<char>|
                final(self).holds_output(m) == old(self).holds_output(m)),
            entity_exists && old(self).holds_output(name@) ==> (r matches Err(e) && e.kind
                matches ErrorKind::Busy { resource: BusyErrorKind::Entity, .. } && forall|
                m: Seq<char>,
            | final(self).holds_output(m) == old(self).holds_output(m)),
            entity_exists && !old(self).holds_output(name@) ==> (r matches Ok(output)
                && output.name_view() == name@ && output.generation_view() == 0
                && final(self).holds_output(name@) && forall|m: Seq<char>|
                m != name@ ==> final(self).holds_output(m) == old(self).holds_output(m)),
    {
        match self.outputs.acquire_entity(name, entity_exists, BlockingBehavior::NonBlocking) {
            Acquisition::Granted(_) => Ok(Output::new(name)),
            Acquisition::Refused(e) => Err(e),
            Acquisition::MustWait => unreached(),
        }
    }

    /// Acquire the named output, blocking until it is available; as
    /// `take_input`, for the writer side.
    pub fn take_output(&mut self, name: &str, entity_exists: bool) -> (r: Acquisition<Output>)
        requires
            old(self).wf(),
        ensures
            final(self).wf(),
            final(self).name_view() == old(self).name_view(),
            forall|m: Seq<char>| final(self).holds_input(m) == old(self).holds_input(m),
            !entity_exists ==> (r matches Acquisition::Refused(e) && e.kind
                matches ErrorKind::NotFound { what: NotFoundErrorKind::Entity, name: n } && n@
                == name@ && forall|m: Seq<char>|
                final(self).holds_output(m) == old(self).holds_output(m)),
            entity_exists && old(self).holds_output(name@) ==> (r is MustWait && forall|
                m: Seq<char>,
            | final(self).holds_output(m) == old(self).holds_output(m)),
            entity_exists && !old(self).holds_output(name@) ==> (r matches Acquisition::Granted(
                output,
            ) && output.name_view() == name@ && output.generation_view() == 0
                && final(self).holds_output(name@) && forall|m: Seq<char>|
                m != name@ ==> final(self).holds_output(m) == old(self).holds_output(m)),
    {
        match self.outputs.acquire_entity(name, entity_exists, BlockingBehavior::BlockForever) {
            Acquisition::Granted(_) => Acquisition::Granted(Output::new(name)),
            Acquisition::Refused(e) => Acquisition::Refused(e),
            Acquisition::MustWait => Acquisition::MustWait,
        }
    }

    /// Release the named output; as `release_input`, for the writer side.
    pub fn release_output(&mut self, name: &str) -> (r: ConnectorFallible)
        requires
            old(self).wf(),
        ensures
            final(self).wf(),
            final(self).name_view() == old(self).name_view(),
            forall|m: Seq<char>| final(self).holds_input(m) == old(self).holds_input(m),
            old(self).holds_output(name@) ==> (r is Ok && !final(self).holds_output(name@)
                && forall|m: Seq<char>|
                m != name@ ==> final(self).holds_output(m) == old(self).holds_output(m)),
            !old(self).holds_output(name@) ==> (r matches Err(e) && e.kind
                matches ErrorKind::Busy { resource: BusyErrorKind::Entity, .. } && forall|
                m: Seq<char>,
            | final(self).holds_output(m) == old(self).holds_output(m)),
    {
        self.outputs.release_entity(name)
    }

    /// The request for waiting until data is available on any input: no
    /// timeout, so the wait is unbounded.
    pub fn wait_for_data(&self) -> (r: crate::invoke::WaitRequest)
        ensures
            r.timeout_ms == crate::INFINITE_TIMEOUT_IN_MS,
    {
        crate::invoke::WaitRequest { timeout_ms: crate::INFINITE_TIMEOUT_IN_MS }
    }

    /// The request for waiting until data is available on any input, with a
    /// millisecond timeout clamped to the boundary's integer width.
    pub fn wait_for_data_with_timeout(&self, timeout_ms: u64) -> (r: crate::invoke::WaitRequest)
        ensures
            timeout_ms <= i32::MAX ==> r.timeout_ms == timeout_ms,
            timeout_ms > i32::MAX ==> r.timeout_ms == i32::MAX,
    {
        crate::invoke::WaitRequest { timeout_ms: crate::clamp_timeout_ms(timeout_ms) }
    }

    /// The version banner: the crate version on the first line, then the two
    /// build identifications of the native runtime, or placeholders where
    /// they could not be read.
    pub fn get_versions_string(crate_version: &str, build_versions: Option<(String, String)>)
        -> (r: String)
        ensures
            r@ == spec_versions_text(crate_version@, build_versions),
    {
        let mut s = "RTI Connector for Rust, version ".to_owned();
        s.append(crate_version);
        s.append("\n");
        match build_versions {
            Some((client, connector)) => {
                s.append(client.as_str());
                s.append("\n");
                s.append(connector.as_str());
            },
            None => {
                s.append("<Unknown RTI Connext version>");
                s.append("\n");
                s.append("<Unknown RTI Connector for Rust version>");
            },
        }
        proof {
            assert(s@ =~= spec_versions_text(crate_version@, build_versions));
        }
        s
    }
}

/// The text of the version banner.
pub open spec fn spec_versions_text(
    crate_version: Seq<char>,
    build_versions: Option<(String, String)>,
) -> Seq<char> {
    let head = "RTI Connector for Rust, version "@ + crate_version + "\n"@;
    match build_versions {
        Some((client, connector)) => head + client@ + "\n"@ + connector@,
        None => head + "<Unknown RTI Connext version>"@ + "\n"@
            + "<Unknown RTI Connector for Rust version>"@,
    }
}

} // verus!
