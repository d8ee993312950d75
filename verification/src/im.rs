//! The information model: descriptors, deployment records and plugin kinds.

use crate::identifier::Identifier;
use vstd::prelude::*;

verus! {

/// Where a deployment stands in its lifecycle.
#[derive(Clone, Copy, Debug, PartialEq, Eq, Structural, Hash)]
pub enum FduState {
    Defined,
    Configured,
    Running,
    /// Any status that the lifecycle does not know. A record in it is handed
    /// on as it is and admits no operation.
    Unknown,
}

/// A deployable unit's descriptor, as far as orchestration reads it: the
/// identifier under which it is known, absent until onboarding.
#[derive(Clone, Copy, Debug, PartialEq, Eq, Hash)]
pub struct FduDescriptor {
    pub uuid: Option<Identifier>,
}

/// One deployment of a descriptor.
#[derive(Clone, Copy, Debug, PartialEq, Eq, Hash)]
pub struct FduRecord {
    /// The instance.
    pub uuid: Identifier,
    /// The descriptor it deploys.
    pub fdu_uuid: Identifier,
    /// The node it runs on, once it has one.
    pub node: Option<Identifier>,
    pub status: FduState,
}

/// What a plugin does for its node.
#[derive(Clone, Debug, PartialEq, Eq)]
pub enum PluginKind {
    /// A hypervisor, by the name of what it runs.
    Hypervisor(String),
    Networking,
}

impl FduDescriptor {
    /// A descriptor that was not onboarded yet.
    pub fn new() -> (d: FduDescriptor)
        ensures
            d.uuid is None,
    {
        FduDescriptor { uuid: None }
    }

    /// A descriptor known under `uuid`.
    pub fn with_uuid(uuid: Identifier) -> (d: FduDescriptor)
        ensures
            d.uuid == Some(uuid),
    {
        FduDescriptor { uuid: Some(uuid) }
    }
}

impl FduRecord {
    /// A record that is configured or running has a node.
    pub open spec fn wf(self) -> bool {
        self.status == FduState::Configured || self.status == FduState::Running
            ==> self.node is Some
    }

    /// The record that defining an instance creates.
    pub fn define(uuid: Identifier, fdu_uuid: Identifier, node: Option<Identifier>) -> (r: FduRecord)
        ensures
            r == (FduRecord { uuid, fdu_uuid, node, status: FduState::Defined }),
            r.wf(),
    {
        FduRecord { uuid, fdu_uuid, node, status: FduState::Defined }
    }
}

} // verus!
