//! Live instances: the immutable per-instance info shared with the host
//! bridge, the instance table entry, and the identity a plugin reports
//! through the mandatory handshake.

use vstd::prelude::*;

use crate::plug::PlugRecord;
use crate::plug::PlugRecordV;

verus! {

use std::sync::Arc;

/// An opaque handle to the isolated execution store the engine allocated for
/// one instance. The runtime never looks inside a store; it only records
/// which store a live instance owns.
#[derive(Clone, Copy, PartialEq, Eq, Structural)]
pub struct StoreHandle {
    pub handle: u64,
}

/// The identity a plugin reports about itself through the handshake call.
pub struct PlugMeta {
    pub name: String,
    pub version: String,
}

/// Mathematical model of a reported identity.
#[verifier::ext_equal]
pub ghost struct PlugMetaV {
    pub name: Seq<char>,
    pub version: Seq<char>,
}

impl View for PlugMeta {
    type V = PlugMetaV;

    open spec fn view(&self) -> PlugMetaV {
        PlugMetaV { name: self.name@, version: self.version@ }
    }
}

/// Immutable once created; shared read-only between an instance and its host
/// bridge. Holds the instant the start attempt began (seconds since the Unix
/// epoch) and the loaded definition the instance runs.
pub struct InstanceInfo {
    pub start_ts: i64,
    pub plug: Arc<PlugRecord>,
}

/// Mathematical model of the per-instance info.
#[verifier::ext_equal]
pub ghost struct InstanceInfoV {
    pub start_ts: i64,
    pub plug: PlugRecordV,
}

impl View for InstanceInfo {
    type V = InstanceInfoV;

    open spec fn view(&self) -> InstanceInfoV {
        InstanceInfoV { start_ts: self.start_ts, plug: self.plug@ }
    }
}

/// One live, isolated execution of a loaded definition: its info and the
/// store it owns exclusively.
pub struct Instance {
    pub info: Arc<InstanceInfo>,
    pub store: StoreHandle,
}

/// Mathematical model of an instance table entry.
#[verifier::ext_equal]
pub ghost struct InstanceV {
    pub info: InstanceInfoV,
    pub store: StoreHandle,
}

impl View for Instance {
    type V = InstanceV;

    open spec fn view(&self) -> InstanceV {
        InstanceV { info: self.info@, store: self.store }
    }
}

/// A start attempt that has passed the registry lookup but has not yet been
/// admitted into the instance table: the engine still has to instantiate the
/// module and run the identity handshake.
pub struct PendingInstance {
    pub info: Arc<InstanceInfo>,
}

} // verus!
