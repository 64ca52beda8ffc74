//! A safety layer for a handle-based publish/subscribe runtime.
//!
//! The runtime itself is reached through a narrow native boundary that this
//! crate does not cross: every function here works on plain values (return
//! codes, diagnostic text, counts, field names) and decides what the boundary
//! should be asked next, or what a reply from it means.

pub mod codec;
pub mod connector;
pub mod input;
pub mod invoke;
pub mod output;
pub mod result;
pub mod text;

pub use connector::{Acquisition, BlockingBehavior, Connector, EntityRegistry, SelectedValue};
pub use input::{
    FieldQuery, Input, QueryKind, QuerySource, Sample, SampleIterator, SampleQuery,
    ValidSampleIterator,
};
pub use invoke::{AnyValue, AnyValueHolder, ConnectorIndex, InvokeResult, ReturnCode, WaitRequest};
pub use output::{
    FieldClear, FieldSet, Instance, InstanceJson, InstanceQuery, Output, WriteParams,
    WriteParamsAction, WriteParamsIdentity, WriteRequest,
};
pub use result::{
    BusyErrorKind, ConnectorError, ConnectorFallible, ConnectorResult, ErrorKind,
    InvalidErrorKind, NotFoundErrorKind,
};

use vstd::prelude::*;

verus! {

/// The value used by the native boundary to request an unbounded wait.
pub const INFINITE_TIMEOUT_IN_MS: i32 = -1;

/// Clamp a millisecond timeout to the integer width the native boundary takes.
pub fn clamp_timeout_ms(timeout_ms: u64) -> (r: i32)
    ensures
        timeout_ms <= i32::MAX ==> r == timeout_ms,
        timeout_ms > i32::MAX ==> r == i32::MAX,
{
    if timeout_ms > i32::MAX as u64 {
        i32::MAX
    } else {
        timeout_ms as i32
    }
}

} // verus!
