//! The lifecycle of a deployment: which operation a record admits in which
//! status, and what the record is afterwards.
//!
//! ```text
//!            configure            start
//!   Defined ----------> Configured ------> Running
//!      ^ |      clean       |  ^    stop      |
//!      | +<-----------------+  +--------------+
//!      | undefine
//!      v
//!   (gone)
//! ```
//!
//! A record in any other status admits no operation.

use crate::error::{ErrorKind, FError};
use crate::identifier::Identifier;
use crate::im::{FduRecord, FduState};
use vstd::prelude::*;

verus! {

/// The operations on an instance that exists.
#[derive(Clone, Copy, Debug, PartialEq, Eq, Structural, Hash)]
pub enum LifecycleOp {
    Configure,
    Start,
    Stop,
    Clean,
    Undefine,
}

/// The status after `op`, where `status` admits it. A record that is
/// undefined leaves in the status it had, `Defined`.
pub open spec fn next_status(status: FduState, op: LifecycleOp) -> Option<FduState> {
    match (status, op) {
        (FduState::Defined, LifecycleOp::Configure) => Some(FduState::Configured),
        (FduState::Configured, LifecycleOp::Start) => Some(FduState::Running),
        (FduState::Running, LifecycleOp::Stop) => Some(FduState::Configured),
        (FduState::Configured, LifecycleOp::Clean) => Some(FduState::Defined),
        (FduState::Defined, LifecycleOp::Undefine) => Some(FduState::Defined),
        _ => None,
    }
}

/// The message of the error that turns an operation down.
pub open spec fn refusal() -> Seq<char> {
    "transition not allowed"@
}

impl FduRecord {
    /// Whether the record's status admits `op`.
    pub open spec fn admits(self, op: LifecycleOp) -> bool {
        next_status(self.status, op) is Some
    }

    /// The record after `op` done on `node`. Configuring binds a record that
    /// has no node yet to `node`; nothing else touches the node, and nothing
    /// touches the two identifiers.
    pub open spec fn after(self, op: LifecycleOp, node: Identifier) -> FduRecord {
        FduRecord {
            uuid: self.uuid,
            fdu_uuid: self.fdu_uuid,
            node: if op == LifecycleOp::Configure && self.node is None {
                Some(node)
            } else {
                self.node
            },
            status: next_status(self.status, op).unwrap(),
        }
    }

    /// Whether the record's status admits `op`.
    pub fn can(&self, op: LifecycleOp) -> (b: bool)
        ensures
            b == self.admits(op),
    {
        match (self.status, op) {
            (FduState::Defined, LifecycleOp::Configure) => true,
            (FduState::Configured, LifecycleOp::Start) => true,
            (FduState::Running, LifecycleOp::Stop) => true,
            (FduState::Configured, LifecycleOp::Clean) => true,
            (FduState::Defined, LifecycleOp::Undefine) => true,
            _ => false,
        }
    }

    /// Applies `op`, done on `node`. An operation that the status does not
    /// admit is a lifecycle error and leaves no trace.
    pub fn apply(&self, op: LifecycleOp, node: Identifier) -> (r: Result<FduRecord, FError>)
        ensures
            match r {
                Ok(next) => self.admits(op) && next == self.after(op, node),
                Err(e) => {
                    &&& !self.admits(op)
                    &&& e.kind == ErrorKind::Lifecycle
                    &&& e.message@ == refusal()
                },
            },
            self.wf() && r is Ok ==> r.unwrap().wf(),
    {
        let status = match (self.status, op) {
            (FduState::Defined, LifecycleOp::Configure) => FduState::Configured,
            (FduState::Configured, LifecycleOp::Start) => FduState::Running,
            (FduState::Running, LifecycleOp::Stop) => FduState::Configured,
            (FduState::Configured, LifecycleOp::Clean) => FduState::Defined,
            (FduState::Defined, LifecycleOp::Undefine) => FduState::Defined,
            _ => {
                return Err(
                    FError::new(ErrorKind::Lifecycle, "transition not allowed".to_string()),
                );
            },
        };
        let bound = match (op, self.node) {
            (LifecycleOp::Configure, None) => Some(node),
            _ => self.node,
        };
        Ok(FduRecord { uuid: self.uuid, fdu_uuid: self.fdu_uuid, node: bound, status })
    }
}

/// Whatever is done to a record, it stays the record of the same instance
/// of the same descriptor, and a node once bound stays bound.
pub proof fn law_identity_is_kept(r: FduRecord, op: LifecycleOp, node: Identifier)
    requires
        r.admits(op),
    ensures
        r.after(op, node).uuid == r.uuid,
        r.after(op, node).fdu_uuid == r.fdu_uuid,
        r.node is Some ==> r.after(op, node).node == r.node,
        r.wf() ==> r.after(op, node).wf(),
{
}

/// The canonical sequence runs through: a record that was just defined
/// admits configure, start, stop, clean and undefine in this order, and
/// after each step it is the record of the instance that was defined, in the
/// status the step leads to.
pub proof fn law_canonical_sequence(r: FduRecord, node: Identifier)
    requires
        r.status == FduState::Defined,
    ensures
        ({
            let configured = r.after(LifecycleOp::Configure, node);
            let running = configured.after(LifecycleOp::Start, node);
            let stopped = running.after(LifecycleOp::Stop, node);
            let cleaned = stopped.after(LifecycleOp::Clean, node);
            let gone = cleaned.after(LifecycleOp::Undefine, node);
            &&& r.admits(LifecycleOp::Configure)
            &&& configured.admits(LifecycleOp::Start)
            &&& running.admits(LifecycleOp::Stop)
            &&& stopped.admits(LifecycleOp::Clean)
            &&& cleaned.admits(LifecycleOp::Undefine)
            &&& configured.status == FduState::Configured
            &&& running.status == FduState::Running
            &&& stopped.status == FduState::Configured
            &&& cleaned.status == FduState::Defined
            &&& gone.status == FduState::Defined
            &&& configured.uuid == r.uuid
            &&& running.uuid == r.uuid
            &&& stopped.uuid == r.uuid
            &&& cleaned.uuid == r.uuid
            &&& gone.uuid == r.uuid
            &&& configured.node is Some
            &&& gone.node == configured.node
        }),
{
}

/// No step is skipped: only a configured instance starts, only a running
/// one stops, only a configured one is cleaned, and only a defined one is
/// configured or undefined. A record in a status that the lifecycle does not
/// know admits nothing.
pub proof fn law_no_step_is_skipped(r: FduRecord)
    ensures
        r.status == FduState::Unknown ==> forall|op: LifecycleOp| !r.admits(op),
        r.admits(LifecycleOp::Configure) <==> r.status == FduState::Defined,
        r.admits(LifecycleOp::Start) <==> r.status == FduState::Configured,
        r.admits(LifecycleOp::Stop) <==> r.status == FduState::Running,
        r.admits(LifecycleOp::Clean) <==> r.status == FduState::Configured,
        r.admits(LifecycleOp::Undefine) <==> r.status == FduState::Defined,
{
}

} // verus!
