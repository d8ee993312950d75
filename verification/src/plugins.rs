//! The bridge that serves a hypervisor plugin.
//!
//! A bridge takes an implementation of the plugin callbacks and drives it
//! through one serve sequence: connect, initialise, register, serve until
//! told to stop, then stop serving, unregister and disconnect. The outside
//! steps are not taken here. The bridge says which step is due
//! ([`BridgeAction`]), the caller takes it and reports what happened
//! ([`BridgeEvent`]), and [`WrappedHypervisor::run`] decides what follows.
//! Requests that arrive while the bridge serves are handed to the plugin and
//! its answer is turned into the reply.

use crate::error::{ErrorKind, FError};
use crate::identifier::{canonical_text, is_canonical, is_well_formed, law_text_round_trip, text_value, uuid_parse_error, Identifier};
use crate::im::{FduDescriptor, FduRecord};
use crate::lifecycle::LifecycleOp;
use vstd::prelude::*;

verus! {

/// `async_std::task::JoinHandle`, the handle of a spawned task. The bridge
/// keeps the one of its serve loop and never looks inside.
#[verifier::external_type_specification]
#[verifier::external_body]
#[verifier::reject_recursive_types(T)]
pub struct ExJoinHandle<T>(async_std::task::JoinHandle<T>);

/// The time between two monitoring ticks while the bridge serves.
pub const MONITORING_INTERVAL: u64 = 60;

/// The slot for the one stop signal of a bridge.
#[derive(Clone, Copy, Debug, PartialEq, Eq, Structural, Hash)]
pub enum StopSignal {
    /// No signal was sent.
    Idle,
    /// A signal was sent and waits for the serve loop.
    Pending,
    /// The serve loop took the signal. The slot takes no other.
    Consumed,
}

/// The states of a bridge.
#[derive(Clone, Copy, Debug, PartialEq, Eq, Structural, Hash)]
pub enum BridgeState {
    Constructed,
    Connecting,
    Initializing,
    Registered,
    Serving,
    Stopping,
    Disconnected,
    /// A step failed and the sequence was given up.
    Aborted,
}

/// Where the serve sequence stands: the outside step that is due.
#[derive(Clone, Copy, Debug, PartialEq, Eq, Structural, Hash)]
pub enum BridgeStep {
    /// Not started.
    Idle,
    Connect,
    Initialize,
    Register,
    StartServing,
    /// Serving: wait for the next tick or for the stop signal.
    Monitor,
    StopServing,
    Unregister,
    Disconnect,
    /// The sequence ran through.
    Done,
    /// The sequence was given up.
    Aborted,
}

/// What the caller is to do next.
#[derive(Clone, Copy, Debug, PartialEq, Eq, Structural, Hash)]
pub enum BridgeAction {
    Connect,
    Initialize,
    Register,
    StartServing,
    /// Wait until `interval` has passed or the stop signal arrives,
    /// whichever is first.
    Monitor { interval: u64 },
    StopServing,
    Unregister,
    Disconnect,
    /// Nothing: the sequence is over.
    Halt,
}

/// What the caller reports.
#[derive(Clone, Debug, PartialEq, Eq)]
pub enum BridgeEvent {
    /// The step that was due succeeded.
    Completed,
    /// Initialising succeeded and the endpoint was given this identifier.
    Initialized(Identifier),
    /// The monitoring interval passed.
    Tick,
    /// The stop signal arrived, or its channel was closed.
    StopRequested,
    /// The step that was due failed.
    Failed(String),
}

/// The runtime state of a bridge, shared between its owner and its serve
/// loop.
pub struct PluginState {
    /// The serve loop's task.
    pub handler: Option<async_std::task::JoinHandle<()>>,
    /// The identifier under which the bridge is registered.
    pub instance_uuid: Option<Identifier>,
    pub step: BridgeStep,
    pub stop: StopSignal,
}

/// The runtime state without the task handle.
pub struct BridgeView {
    pub instance_uuid: Option<Identifier>,
    pub step: BridgeStep,
    pub stop: StopSignal,
}

/// The state that a step belongs to.
pub open spec fn state_of(step: BridgeStep) -> BridgeState {
    match step {
        BridgeStep::Idle => BridgeState::Constructed,
        BridgeStep::Connect => BridgeState::Connecting,
        BridgeStep::Initialize => BridgeState::Initializing,
        BridgeStep::Register => BridgeState::Registered,
        BridgeStep::StartServing => BridgeState::Registered,
        BridgeStep::Monitor => BridgeState::Serving,
        BridgeStep::StopServing => BridgeState::Stopping,
        BridgeStep::Unregister => BridgeState::Stopping,
        BridgeStep::Disconnect => BridgeState::Stopping,
        BridgeStep::Done => BridgeState::Disconnected,
        BridgeStep::Aborted => BridgeState::Aborted,
    }
}

/// What the caller is to do when `step` is due.
pub open spec fn action_of(step: BridgeStep) -> BridgeAction {
    match step {
        BridgeStep::Connect => BridgeAction::Connect,
        BridgeStep::Initialize => BridgeAction::Initialize,
        BridgeStep::Register => BridgeAction::Register,
        BridgeStep::StartServing => BridgeAction::StartServing,
        BridgeStep::Monitor => BridgeAction::Monitor { interval: MONITORING_INTERVAL },
        BridgeStep::StopServing => BridgeAction::StopServing,
        BridgeStep::Unregister => BridgeAction::Unregister,
        BridgeStep::Disconnect => BridgeAction::Disconnect,
        _ => BridgeAction::Halt,
    }
}

/// The steps that are a call to the outside, which succeeds or fails.
pub open spec fn is_outside_step(step: BridgeStep) -> bool {
    match step {
        BridgeStep::Connect
        | BridgeStep::Initialize
        | BridgeStep::Register
        | BridgeStep::StartServing
        | BridgeStep::StopServing
        | BridgeStep::Unregister
        | BridgeStep::Disconnect => true,
        _ => false,
    }
}

/// The steps from registering on: the bridge has its identifier.
pub open spec fn has_registered(step: BridgeStep) -> bool {
    match step {
        BridgeStep::Idle | BridgeStep::Connect | BridgeStep::Initialize | BridgeStep::Aborted => false,
        _ => true,
    }
}

/// The steps after serving: the stop signal was taken.
pub open spec fn is_tearing_down(step: BridgeStep) -> bool {
    match step {
        BridgeStep::StopServing | BridgeStep::Unregister | BridgeStep::Disconnect | BridgeStep::Done => true,
        _ => false,
    }
}

/// Whether `event` is the success that `step` waits for.
pub open spec fn completes(step: BridgeStep, event: BridgeEvent) -> bool {
    match (step, event) {
        (BridgeStep::Initialize, BridgeEvent::Initialized(_)) => true,
        (BridgeStep::Monitor, BridgeEvent::Tick) => true,
        (BridgeStep::Monitor, BridgeEvent::StopRequested) => true,
        (_, BridgeEvent::Completed) => is_outside_step(step) && step != BridgeStep::Initialize,
        _ => false,
    }
}

/// Whether `event` is the failure of the step that is due.
pub open spec fn fails(step: BridgeStep, event: BridgeEvent) -> bool {
    is_outside_step(step) && event is Failed
}

/// The step that follows when `event` completes `step`.
pub open spec fn step_after(step: BridgeStep, event: BridgeEvent) -> BridgeStep {
    match step {
        BridgeStep::Connect => BridgeStep::Initialize,
        BridgeStep::Initialize => BridgeStep::Register,
        BridgeStep::Register => BridgeStep::StartServing,
        BridgeStep::StartServing => BridgeStep::Monitor,
        BridgeStep::Monitor => if event is Tick {
            BridgeStep::Monitor
        } else {
            BridgeStep::StopServing
        },
        BridgeStep::StopServing => BridgeStep::Unregister,
        BridgeStep::Unregister => BridgeStep::Disconnect,
        BridgeStep::Disconnect => BridgeStep::Done,
        _ => step,
    }
}

/// The message of the error for an event that answers no step that is due.
pub open spec fn unexpected_event() -> Seq<char> {
    "unexpected event"@
}

/// The message of the error for a start that is not the first.
pub open spec fn already_started() -> Seq<char> {
    "the bridge was started before"@
}

/// The message of the error for a stop signal that is not accepted.
pub open spec fn already_stopped() -> Seq<char> {
    "the bridge was stopped before"@
}

impl BridgeView {
    /// The identifier is there from registering on and not before, and the
    /// stop signal was taken when the bridge is past serving and not before.
    /// An aborted bridge keeps what it had.
    pub open spec fn wf(self) -> bool {
        &&& self.step != BridgeStep::Aborted ==> (self.instance_uuid is Some <==> has_registered(
            self.step,
        ))
        &&& is_tearing_down(self.step) ==> self.stop == StopSignal::Consumed
        &&& self.step != BridgeStep::Aborted && !is_tearing_down(self.step) ==> self.stop
            != StopSignal::Consumed
    }

    /// The state of a bridge that was just made.
    pub open spec fn fresh() -> BridgeView {
        BridgeView { instance_uuid: None, step: BridgeStep::Idle, stop: StopSignal::Idle }
    }

    /// Whether a start is accepted: only the first.
    pub open spec fn can_start(self) -> bool {
        self.step == BridgeStep::Idle
    }

    /// The state after an accepted start.
    pub open spec fn started(self) -> BridgeView {
        BridgeView { step: BridgeStep::Connect, ..self }
    }

    /// Whether a stop signal is accepted: only the first, and only while the
    /// sequence is not over.
    pub open spec fn can_stop(self) -> bool {
        &&& self.stop == StopSignal::Idle
        &&& self.step != BridgeStep::Done
        &&& self.step != BridgeStep::Aborted
    }

    /// The state after an accepted stop signal.
    pub open spec fn stopped(self) -> BridgeView {
        BridgeView { stop: StopSignal::Pending, ..self }
    }

    /// The state after `event`. An event that completes the step that is due
    /// moves on to the next; the identifier is set when initialising
    /// completes, and the stop signal is taken when serving ends. A failure
    /// of the step that is due aborts. Any other event changes nothing.
    pub open spec fn after(self, event: BridgeEvent) -> BridgeView {
        if completes(self.step, event) {
            BridgeView {
                instance_uuid: match event {
                    BridgeEvent::Initialized(id) => Some(id),
                    _ => self.instance_uuid,
                },
                step: step_after(self.step, event),
                stop: if event is StopRequested {
                    StopSignal::Consumed
                } else {
                    self.stop
                },
            }
        } else if fails(self.step, event) {
            BridgeView { step: BridgeStep::Aborted, ..self }
        } else {
            self
        }
    }
}

impl StopSignal {
    /// An empty slot.
    pub fn new() -> (s: StopSignal)
        ensures
            s == StopSignal::Idle,
    {
        StopSignal::Idle
    }

    /// Puts the signal into the slot. Only an idle slot takes it.
    pub fn send(&mut self) -> (sent: bool)
        ensures
            sent == (*old(self) == StopSignal::Idle),
            sent ==> *final(self) == StopSignal::Pending,
            !sent ==> *final(self) == *old(self),
    {
        match *self {
            StopSignal::Idle => {
                *self = StopSignal::Pending;
                true
            },
            _ => false,
        }
    }

    /// Takes the signal out. The slot is used up afterwards, whether or not
    /// a signal was waiting.
    pub fn take(&mut self) -> (was_pending: bool)
        ensures
            was_pending == (*old(self) == StopSignal::Pending),
            *final(self) == StopSignal::Consumed,
    {
        let was_pending = match *self {
            StopSignal::Pending => true,
            _ => false,
        };
        *self = StopSignal::Consumed;
        was_pending
    }
}

impl PluginState {
    pub open spec fn view(&self) -> BridgeView {
        BridgeView { instance_uuid: self.instance_uuid, step: self.step, stop: self.stop }
    }

    /// The runtime state of a bridge that was just made: empty.
    pub fn new() -> (s: PluginState)
        ensures
            s@ == BridgeView::fresh(),
            s.handler is None,
            s@.wf(),
    {
        PluginState {
            handler: None,
            instance_uuid: None,
            step: BridgeStep::Idle,
            stop: StopSignal::Idle,
        }
    }

    /// The state the bridge is in.
    pub fn state(&self) -> (s: BridgeState)
        ensures
            s == state_of(self.step),
    {
        match self.step {
            BridgeStep::Idle => BridgeState::Constructed,
            BridgeStep::Connect => BridgeState::Connecting,
            BridgeStep::Initialize => BridgeState::Initializing,
            BridgeStep::Register => BridgeState::Registered,
            BridgeStep::StartServing => BridgeState::Registered,
            BridgeStep::Monitor => BridgeState::Serving,
            BridgeStep::StopServing => BridgeState::Stopping,
            BridgeStep::Unregister => BridgeState::Stopping,
            BridgeStep::Disconnect => BridgeState::Stopping,
            BridgeStep::Done => BridgeState::Disconnected,
            BridgeStep::Aborted => BridgeState::Aborted,
        }
    }

    /// What the caller is to do now.
    pub fn pending(&self) -> (a: BridgeAction)
        ensures
            a == action_of(self.step),
    {
        match self.step {
            BridgeStep::Connect => BridgeAction::Connect,
            BridgeStep::Initialize => BridgeAction::Initialize,
            BridgeStep::Register => BridgeAction::Register,
            BridgeStep::StartServing => BridgeAction::StartServing,
            BridgeStep::Monitor => BridgeAction::Monitor { interval: MONITORING_INTERVAL },
            BridgeStep::StopServing => BridgeAction::StopServing,
            BridgeStep::Unregister => BridgeAction::Unregister,
            BridgeStep::Disconnect => BridgeAction::Disconnect,
            _ => BridgeAction::Halt,
        }
    }

    /// Keeps the handle of the serve loop's task.
    pub fn attach(&mut self, handler: async_std::task::JoinHandle<()>)
        ensures
            final(self).handler == Some(handler),
            final(self)@ == old(self)@,
    {
        self.handler = Some(handler);
    }

    /// Starts the serve sequence: the first step, connecting, is due. A
    /// bridge is started once; any later start is an error and changes
    /// nothing.
    pub fn start(&mut self) -> (r: Result<BridgeAction, FError>)
        ensures
            final(self).handler == old(self).handler,
            match r {
                Ok(action) => {
                    &&& old(self)@.can_start()
                    &&& final(self)@ == old(self)@.started()
                    &&& action == BridgeAction::Connect
                },
                Err(e) => {
                    &&& !old(self)@.can_start()
                    &&& final(self)@ == old(self)@
                    &&& e.kind == ErrorKind::Bridge
                    &&& e.message@ == already_started()
                },
            },
            old(self)@.wf() ==> final(self)@.wf(),
    {
        match self.step {
            BridgeStep::Idle => {
                self.step = BridgeStep::Connect;
                Ok(BridgeAction::Connect)
            },
            _ => Err(FError::new(ErrorKind::Bridge, "the bridge was started before".to_string())),
        }
    }

    /// Sends the stop signal. The first signal is accepted, unless the
    /// sequence is over already; any other is an error and changes nothing.
    pub fn stop(&mut self) -> (r: Result<(), FError>)
        ensures
            final(self).handler == old(self).handler,
            match r {
                Ok(_) => old(self)@.can_stop() && final(self)@ == old(self)@.stopped(),
                Err(e) => {
                    &&& !old(self)@.can_stop()
                    &&& final(self)@ == old(self)@
                    &&& e.kind == ErrorKind::Bridge
                    &&& e.message@ == already_stopped()
                },
            },
            old(self)@.wf() ==> final(self)@.wf(),
    {
        let over = match self.step {
            BridgeStep::Done | BridgeStep::Aborted => true,
            _ => false,
        };
        if !over && self.stop.send() {
            Ok(())
        } else {
            Err(FError::new(ErrorKind::Bridge, "the bridge was stopped before".to_string()))
        }
    }

    /// Takes in what happened to the step that was due and says what is due
    /// next. A failure of that step aborts the sequence and is reported with
    /// the failure's message. An event that answers no step that is due is
    /// reported and changes nothing.
    pub fn run(&mut self, event: BridgeEvent) -> (r: Result<BridgeAction, FError>)
        ensures
            final(self).handler == old(self).handler,
            final(self)@ == old(self)@.after(event),
            match r {
                Ok(action) => {
                    &&& completes(old(self).step, event)
                    &&& action == action_of(final(self).step)
                },
                Err(e) => {
                    &&& !completes(old(self).step, event)
                    &&& e.kind == ErrorKind::Bridge
                    &&& e.message@ == match event {
                        BridgeEvent::Failed(m) if is_outside_step(old(self).step) => m@,
                        _ => unexpected_event(),
                    }
                },
            },
            old(self)@.wf() ==> final(self)@.wf(),
    {
        let step = self.step;
        match (step, event) {
            (BridgeStep::Connect, BridgeEvent::Completed) => {
                self.step = BridgeStep::Initialize;
            },
            (BridgeStep::Initialize, BridgeEvent::Initialized(id)) => {
                self.instance_uuid = Some(id);
                self.step = BridgeStep::Register;
            },
            (BridgeStep::Register, BridgeEvent::Completed) => {
                self.step = BridgeStep::StartServing;
            },
            (BridgeStep::StartServing, BridgeEvent::Completed) => {
                self.step = BridgeStep::Monitor;
            },
            (BridgeStep::Monitor, BridgeEvent::Tick) => {},
            (BridgeStep::Monitor, BridgeEvent::StopRequested) => {
                self.stop.take();
                self.step = BridgeStep::StopServing;
            },
            (BridgeStep::StopServing, BridgeEvent::Completed) => {
                self.step = BridgeStep::Unregister;
            },
            (BridgeStep::Unregister, BridgeEvent::Completed) => {
                self.step = BridgeStep::Disconnect;
            },
            (BridgeStep::Disconnect, BridgeEvent::Completed) => {
                self.step = BridgeStep::Done;
            },
            (_, BridgeEvent::Failed(message)) => {
                let outside = match step {
                    BridgeStep::Connect
                    | BridgeStep::Initialize
                    | BridgeStep::Register
                    | BridgeStep::StartServing
                    | BridgeStep::StopServing
                    | BridgeStep::Unregister
                    | BridgeStep::Disconnect => true,
                    _ => false,
                };
                if outside {
                    self.step = BridgeStep::Aborted;
                    return Err(FError::new(ErrorKind::Bridge, message));
                }
                return Err(FError::new(ErrorKind::Bridge, "unexpected event".to_string()));
            },
            _ => {
                return Err(FError::new(ErrorKind::Bridge, "unexpected event".to_string()));
            },
        }
        Ok(self.pending())
    }

    /// The identifier under which the bridge is registered, in its canonical
    /// text; none before the bridge has registered.
    pub fn instance_uuid(&self) -> (r: Option<String>)
        ensures
            match r {
                Some(text) => self.instance_uuid is Some && text@ == canonical_text(
                    self.instance_uuid.unwrap().value,
                ),
                None => self.instance_uuid is None,
            },
    {
        match self.instance_uuid {
            Some(id) => Some(id.to_text()),
            None => None,
        }
    }

    /// Whether a request is taken: a bridge takes requests while it serves
    /// and at no other time. A request that comes at another time is turned
    /// away with a transport error.
    pub fn accept(&self) -> (r: Result<(), FError>)
        ensures
            match r {
                Ok(_) => self.step == BridgeStep::Monitor,
                Err(e) => {
                    &&& self.step != BridgeStep::Monitor
                    &&& e.kind == ErrorKind::Transport
                    &&& e.message@ == not_serving()
                },
            },
    {
        match self.step {
            BridgeStep::Monitor => Ok(()),
            _ => Err(FError::new(ErrorKind::Transport, "the bridge is not serving".to_string())),
        }
    }
}

/// What a plugin callback handed back.
#[derive(Clone, Debug, PartialEq, Eq)]
pub enum PluginValue {
    /// A text, read as an identifier where one is expected.
    Text(String),
    /// A deployment record.
    Record(FduRecord),
    /// Anything else.
    Other,
}

/// The callbacks of a hypervisor plugin. Each is called with the descriptor
/// or with the canonical text of the instance's identifier, and hands back a
/// value or the message of the fault it raised.
///
/// Nothing is asked of what a plugin answers. The three relations only give
/// a name to what a plugin can do when it is called ([`Self::defines`],
/// [`Self::does`], [`Self::reports`]), so that who calls a plugin can say
/// which callback it called, with what, and what it made of the answer. It is
/// for the plugin to say what they hold of; for a plugin that does not say,
/// they hold of every call and every answer.
pub trait HypervisorPlugin: Sized {
    /// Whether `define_fdu`, called with `descriptor`, can leave this plugin
    /// as `after` and hand back `outcome`.
    open spec fn defines(
        &self,
        descriptor: FduDescriptor,
        after: &Self,
        outcome: Result<PluginValue, String>,
    ) -> bool {
        true
    }

    /// Whether the callback for `op`, called with `instance_uuid`, can leave
    /// this plugin as `after` and hand back `outcome`.
    open spec fn does(
        &self,
        op: LifecycleOp,
        instance_uuid: Seq<char>,
        after: &Self,
        outcome: Result<PluginValue, String>,
    ) -> bool {
        true
    }

    /// Whether `get_fdu_status`, called with `instance_uuid`, can hand back
    /// `outcome`.
    open spec fn reports(&self, instance_uuid: Seq<char>, outcome: Result<PluginValue, String>) -> bool {
        true
    }

    fn define_fdu(&mut self, descriptor: FduDescriptor) -> (outcome: Result<PluginValue, String>)
        ensures
            old(self).defines(descriptor, final(self), outcome),
    ;

    fn undefine_fdu(&mut self, instance_uuid: &str) -> (outcome: Result<PluginValue, String>)
        requires
            is_canonical(instance_uuid@),
        ensures
            old(self).does(LifecycleOp::Undefine, instance_uuid@, final(self), outcome),
    ;

    fn configure_fdu(&mut self, instance_uuid: &str) -> (outcome: Result<PluginValue, String>)
        requires
            is_canonical(instance_uuid@),
        ensures
            old(self).does(LifecycleOp::Configure, instance_uuid@, final(self), outcome),
    ;

    fn clean_fdu(&mut self, instance_uuid: &str) -> (outcome: Result<PluginValue, String>)
        requires
            is_canonical(instance_uuid@),
        ensures
            old(self).does(LifecycleOp::Clean, instance_uuid@, final(self), outcome),
    ;

    fn start_fdu(&mut self, instance_uuid: &str) -> (outcome: Result<PluginValue, String>)
        requires
            is_canonical(instance_uuid@),
        ensures
            old(self).does(LifecycleOp::Start, instance_uuid@, final(self), outcome),
    ;

    fn stop_fdu(&mut self, instance_uuid: &str) -> (outcome: Result<PluginValue, String>)
        requires
            is_canonical(instance_uuid@),
        ensures
            old(self).does(LifecycleOp::Stop, instance_uuid@, final(self), outcome),
    ;

    fn get_fdu_status(&self, instance_uuid: &str) -> (outcome: Result<PluginValue, String>)
        requires
            is_canonical(instance_uuid@),
        ensures
            self.reports(instance_uuid@, outcome),
    ;
}

/// The message of the error for a callback's value of the wrong shape.
pub open spec fn unexpected_value() -> Seq<char> {
    "the plugin returned a value of an unexpected type"@
}

/// The message of the error for a request to a bridge that does not serve.
pub open spec fn not_serving() -> Seq<char> {
    "the bridge is not serving"@
}

/// Whether `r` is the reply to a call that answers with an identifier,
/// given what the plugin handed back. A text that reads as an identifier
/// gives that identifier. Everything else is a hypervisor error: a fault,
/// with its message; a text that is no identifier, with the parser's
/// message; any other value.
pub open spec fn is_identifier_reply(
    outcome: Result<PluginValue, String>,
    r: Result<Identifier, FError>,
) -> bool {
    match r {
        Ok(id) => {
            &&& outcome matches Ok(PluginValue::Text(text))
            &&& is_well_formed(text@)
            &&& id.value as nat == text_value(text@)
        },
        Err(e) => {
            &&& e.kind == ErrorKind::Hypervisor
            &&& match outcome {
                Err(fault) => e.message@ == fault@,
                Ok(PluginValue::Text(text)) => !is_well_formed(text@) && e.message@
                    == uuid_parse_error(text@),
                Ok(_) => e.message@ == unexpected_value(),
            }
        },
    }
}

/// Whether `r` is the reply to a call that answers with a record, given
/// what the plugin handed back. A record is handed on as it is. Everything
/// else is a hypervisor error: a fault, with its message; any other value.
pub open spec fn is_record_reply(
    outcome: Result<PluginValue, String>,
    r: Result<FduRecord, FError>,
) -> bool {
    match r {
        Ok(record) => outcome == Ok::<PluginValue, String>(PluginValue::Record(record)),
        Err(e) => {
            &&& e.kind == ErrorKind::Hypervisor
            &&& match outcome {
                Err(fault) => e.message@ == fault@,
                Ok(PluginValue::Record(_)) => false,
                Ok(_) => e.message@ == unexpected_value(),
            }
        },
    }
}

/// The reply to a call that answers with an identifier, as
/// [`is_identifier_reply`] says.
pub fn identifier_reply(outcome: Result<PluginValue, String>) -> (r: Result<Identifier, FError>)
    ensures
        is_identifier_reply(outcome, r),
{
    match outcome {
        Err(fault) => Err(FError::new(ErrorKind::Hypervisor, fault)),
        Ok(PluginValue::Text(text)) => match Identifier::parse(text.as_str()) {
            Ok(id) => Ok(id),
            Err(e) => Err(FError::new(ErrorKind::Hypervisor, e.message)),
        },
        Ok(_) => Err(
            FError::new(
                ErrorKind::Hypervisor,
                "the plugin returned a value of an unexpected type".to_string(),
            ),
        ),
    }
}

/// The reply to a call that answers with a record, as [`is_record_reply`]
/// says.
pub fn record_reply(outcome: Result<PluginValue, String>) -> (r: Result<FduRecord, FError>)
    ensures
        is_record_reply(outcome, r),
{
    match outcome {
        Err(fault) => Err(FError::new(ErrorKind::Hypervisor, fault)),
        Ok(PluginValue::Record(record)) => Ok(record),
        Ok(_) => Err(
            FError::new(
                ErrorKind::Hypervisor,
                "the plugin returned a value of an unexpected type".to_string(),
            ),
        ),
    }
}

/// Hands a descriptor to the plugin's `define_fdu` and reads the answer as
/// [`is_record_reply`] says: the plugin was called with `descriptor`, it is
/// left as that call left it, and the result is the reply to what that call
/// handed back. Whatever the plugin does, a failure is a hypervisor error.
pub fn call_define<H: HypervisorPlugin>(hv: &mut H, descriptor: FduDescriptor) -> (r: Result<
    FduRecord,
    FError,
>)
    ensures
        exists|outcome: Result<PluginValue, String>|
            #![trigger old(hv).defines(descriptor, final(hv), outcome)]
            old(hv).defines(descriptor, final(hv), outcome) && is_record_reply(outcome, r),
        r matches Err(e) ==> e.kind == ErrorKind::Hypervisor,
{
    record_reply(hv.define_fdu(descriptor))
}

/// Hands the canonical text of `instance_uuid` to the plugin's callback for
/// `op` and reads the answer as [`is_identifier_reply`] says: the plugin's
/// callback for `op` was called with that text, the plugin is left as that
/// call left it, and the result is the reply to what that call handed back.
/// Whatever the plugin does, a failure is a hypervisor error.
pub fn call_lifecycle<H: HypervisorPlugin>(hv: &mut H, op: LifecycleOp, instance_uuid: Identifier) -> (r:
    Result<Identifier, FError>)
    ensures
        exists|outcome: Result<PluginValue, String>|
            #![trigger old(hv).does(op, canonical_text(instance_uuid.value), final(hv), outcome)]
            old(hv).does(op, canonical_text(instance_uuid.value), final(hv), outcome)
                && is_identifier_reply(outcome, r),
        r matches Err(e) ==> e.kind == ErrorKind::Hypervisor,
{
    let text = instance_uuid.to_text();
    proof {
        law_text_round_trip(instance_uuid.value);
    }
    let outcome = match op {
        LifecycleOp::Configure => hv.configure_fdu(text.as_str()),
        LifecycleOp::Start => hv.start_fdu(text.as_str()),
        LifecycleOp::Stop => hv.stop_fdu(text.as_str()),
        LifecycleOp::Clean => hv.clean_fdu(text.as_str()),
        LifecycleOp::Undefine => hv.undefine_fdu(text.as_str()),
    };
    identifier_reply(outcome)
}

/// Hands the canonical text of `instance_uuid` to the plugin's
/// `get_fdu_status` and reads the answer as [`is_record_reply`] says: the
/// plugin was called with that text, and the result is the reply to what
/// that call handed back. Whatever the plugin does, a failure is a
/// hypervisor error.
pub fn call_status<H: HypervisorPlugin>(hv: &H, instance_uuid: Identifier) -> (r: Result<
    FduRecord,
    FError,
>)
    ensures
        exists|outcome: Result<PluginValue, String>|
            #![trigger hv.reports(canonical_text(instance_uuid.value), outcome)]
            hv.reports(canonical_text(instance_uuid.value), outcome) && is_record_reply(
                outcome,
                r,
            ),
        r matches Err(e) ==> e.kind == ErrorKind::Hypervisor,
{
    let text = instance_uuid.to_text();
    proof {
        law_text_round_trip(instance_uuid.value);
    }
    record_reply(hv.get_fdu_status(text.as_str()))
}

/// A hypervisor plugin behind its bridge.
pub struct WrappedHypervisor<H: HypervisorPlugin> {
    /// The plugin.
    pub hv: H,
    pub state: PluginState,
}

impl<H: HypervisorPlugin> WrappedHypervisor<H> {
    /// Whether the bridge serves: requests are taken in this state only.
    pub open spec fn serving(&self) -> bool {
        self.state.step == BridgeStep::Monitor
    }

    /// A bridge for `hv`: constructed, not started, with empty runtime state.
    pub fn new(hv: H) -> (bridge: Self)
        ensures
            bridge.hv == hv,
            bridge.state@ == BridgeView::fresh(),
            bridge.state.handler is None,
    {
        WrappedHypervisor { hv, state: PluginState::new() }
    }

    /// Takes in what happened to the step that was due and says what is due
    /// next, as [`PluginState::run`] does. The plugin is not touched.
    pub fn run(&mut self, event: BridgeEvent) -> (r: Result<BridgeAction, FError>)
        ensures
            final(self).hv == old(self).hv,
            final(self).state.handler == old(self).state.handler,
            final(self).state@ == old(self).state@.after(event),
            match r {
                Ok(action) => {
                    &&& completes(old(self).state.step, event)
                    &&& action == action_of(final(self).state.step)
                },
                Err(e) => {
                    &&& !completes(old(self).state.step, event)
                    &&& e.kind == ErrorKind::Bridge
                    &&& e.message@ == match event {
                        BridgeEvent::Failed(m) if is_outside_step(old(self).state.step) => m@,
                        _ => unexpected_event(),
                    }
                },
            },
            old(self).state@.wf() ==> final(self).state@.wf(),
    {
        self.state.run(event)
    }

    /// Starts the serve sequence, as [`PluginState::start`] does. The plugin
    /// is not touched.
    pub fn start(&mut self) -> (r: Result<BridgeAction, FError>)
        ensures
            final(self).hv == old(self).hv,
            final(self).state.handler == old(self).state.handler,
            match r {
                Ok(action) => {
                    &&& old(self).state@.can_start()
                    &&& final(self).state@ == old(self).state@.started()
                    &&& action == BridgeAction::Connect
                },
                Err(e) => {
                    &&& !old(self).state@.can_start()
                    &&& final(self).state@ == old(self).state@
                    &&& e.kind == ErrorKind::Bridge
                    &&& e.message@ == already_started()
                },
            },
            old(self).state@.wf() ==> final(self).state@.wf(),
    {
        self.state.start()
    }

    /// Sends the stop signal, as [`PluginState::stop`] does. The plugin is
    /// not touched.
    pub fn stop(&mut self) -> (r: Result<(), FError>)
        ensures
            final(self).hv == old(self).hv,
            final(self).state.handler == old(self).state.handler,
            match r {
                Ok(_) => old(self).state@.can_stop() && final(self).state@ == old(
                    self,
                ).state@.stopped(),
                Err(e) => {
                    &&& !old(self).state@.can_stop()
                    &&& final(self).state@ == old(self).state@
                    &&& e.kind == ErrorKind::Bridge
                    &&& e.message@ == already_stopped()
                },
            },
            old(self).state@.wf() ==> final(self).state@.wf(),
    {
        self.state.stop()
    }

    /// The identifier under which the bridge is registered, in its canonical
    /// text; none before the bridge has registered.
    pub fn instance_uuid(&self) -> (r: Option<String>)
        ensures
            match r {
                Some(text) => self.state.instance_uuid is Some && text@ == canonical_text(
                    self.state.instance_uuid.unwrap().value,
                ),
                None => self.state.instance_uuid is None,
            },
    {
        self.state.instance_uuid()
    }

    /// Serves a request to define an instance of `descriptor`. A bridge that
    /// does not serve turns it away with a transport error and leaves the
    /// plugin alone. A serving bridge calls the plugin's `define_fdu` with
    /// `descriptor`; the plugin is left as that call left it, and the result
    /// is the reply to what the call handed back, as [`is_record_reply`]
    /// says. The bridge's own state does not change.
    pub fn define_fdu(&mut self, descriptor: FduDescriptor) -> (r: Result<FduRecord, FError>)
        ensures
            final(self).state == old(self).state,
            !old(self).serving() ==> final(self).hv == old(self).hv && r is Err && r.unwrap_err().kind
                == ErrorKind::Transport && r.unwrap_err().message@ == not_serving(),
            old(self).serving() ==> exists|outcome: Result<PluginValue, String>|
                #![trigger old(self).hv.defines(descriptor, &final(self).hv, outcome)]
                old(self).hv.defines(descriptor, &final(self).hv, outcome) && is_record_reply(
                    outcome,
                    r,
                ),
            old(self).serving() && r is Err ==> r.unwrap_err().kind == ErrorKind::Hypervisor,
    {
        match self.state.accept() {
            Ok(_) => {
                let ghost before = self.hv;
                let r = call_define(&mut self.hv, descriptor);
                proof {
                    let outcome = choose|outcome: Result<PluginValue, String>|
                        #![trigger before.defines(descriptor, &self.hv, outcome)]
                        before.defines(descriptor, &self.hv, outcome) && is_record_reply(outcome, r);
                    assert(before.defines(descriptor, &self.hv, outcome));
                    assert(is_record_reply(outcome, r));
                }
                r
            },
            Err(e) => Err(e),
        }
    }

    /// Serves a request for `op` on an instance, as the five methods named
    /// after the operations do.
    fn serve(&mut self, op: LifecycleOp, instance_uuid: Identifier) -> (r: Result<Identifier, FError>)
        ensures
            final(self).state == old(self).state,
            !old(self).serving() ==> final(self).hv == old(self).hv && r is Err && r.unwrap_err().kind
                == ErrorKind::Transport && r.unwrap_err().message@ == not_serving(),
            old(self).serving() ==> exists|outcome: Result<PluginValue, String>|
                #![trigger old(self).hv.does(op, canonical_text(instance_uuid.value), &final(self).hv, outcome)]
                old(self).hv.does(op, canonical_text(instance_uuid.value), &final(self).hv, outcome)
                    && is_identifier_reply(outcome, r),
            old(self).serving() && r is Err ==> r.unwrap_err().kind == ErrorKind::Hypervisor,
    {
        match self.state.accept() {
            Ok(_) => {
                let ghost before = self.hv;
                let ghost text = canonical_text(instance_uuid.value);
                let r = call_lifecycle(&mut self.hv, op, instance_uuid);
                proof {
                    let outcome = choose|outcome: Result<PluginValue, String>|
                        #![trigger before.does(op, text, &self.hv, outcome)]
                        before.does(op, text, &self.hv, outcome) && is_identifier_reply(outcome, r);
                    assert(before.does(op, text, &self.hv, outcome));
                    assert(is_identifier_reply(outcome, r));
                }
                r
            },
            Err(e) => Err(e),
        }
    }

    /// Serves a request to undefine an instance. A bridge that does not serve
    /// turns it away with a transport error and leaves the plugin alone. A
    /// serving bridge calls the plugin's `undefine_fdu` with the canonical text of
    /// `instance_uuid`; the plugin is left as that call left it, and the
    /// result is the reply to what the call handed back, as
    /// [`is_identifier_reply`] says. The bridge's own state does not change.
    pub fn undefine_fdu(&mut self, instance_uuid: Identifier) -> (r: Result<Identifier, FError>)
        ensures
            final(self).state == old(self).state,
            !old(self).serving() ==> final(self).hv == old(self).hv && r is Err && r.unwrap_err().kind
                == ErrorKind::Transport && r.unwrap_err().message@ == not_serving(),
            old(self).serving() ==> exists|outcome: Result<PluginValue, String>|
                #![trigger old(self).hv.does(LifecycleOp::Undefine, canonical_text(instance_uuid.value), &final(self).hv, outcome)]
                old(self).hv.does(
                    LifecycleOp::Undefine,
                    canonical_text(instance_uuid.value),
                    &final(self).hv,
                    outcome,
                ) && is_identifier_reply(outcome, r),
            old(self).serving() && r is Err ==> r.unwrap_err().kind == ErrorKind::Hypervisor,
    {
        self.serve(LifecycleOp::Undefine, instance_uuid)
    }

    /// Serves a request to configure an instance. A bridge that does not serve
    /// turns it away with a transport error and leaves the plugin alone. A
    /// serving bridge calls the plugin's `configure_fdu` with the canonical text of
    /// `instance_uuid`; the plugin is left as that call left it, and the
    /// result is the reply to what the call handed back, as
    /// [`is_identifier_reply`] says. The bridge's own state does not change.
    pub fn configure_fdu(&mut self, instance_uuid: Identifier) -> (r: Result<Identifier, FError>)
        ensures
            final(self).state == old(self).state,
            !old(self).serving() ==> final(self).hv == old(self).hv && r is Err && r.unwrap_err().kind
                == ErrorKind::Transport && r.unwrap_err().message@ == not_serving(),
            old(self).serving() ==> exists|outcome: Result<PluginValue, String>|
                #![trigger old(self).hv.does(LifecycleOp::Configure, canonical_text(instance_uuid.value), &final(self).hv, outcome)]
                old(self).hv.does(
                    LifecycleOp::Configure,
                    canonical_text(instance_uuid.value),
                    &final(self).hv,
                    outcome,
                ) && is_identifier_reply(outcome, r),
            old(self).serving() && r is Err ==> r.unwrap_err().kind == ErrorKind::Hypervisor,
    {
        self.serve(LifecycleOp::Configure, instance_uuid)
    }

    /// Serves a request to clean an instance. A bridge that does not serve
    /// turns it away with a transport error and leaves the plugin alone. A
    /// serving bridge calls the plugin's `clean_fdu` with the canonical text of
    /// `instance_uuid`; the plugin is left as that call left it, and the
    /// result is the reply to what the call handed back, as
    /// [`is_identifier_reply`] says. The bridge's own state does not change.
    pub fn clean_fdu(&mut self, instance_uuid: Identifier) -> (r: Result<Identifier, FError>)
        ensures
            final(self).state == old(self).state,
            !old(self).serving() ==> final(self).hv == old(self).hv && r is Err && r.unwrap_err().kind
                == ErrorKind::Transport && r.unwrap_err().message@ == not_serving(),
            old(self).serving() ==> exists|outcome: Result<PluginValue, String>|
                #![trigger old(self).hv.does(LifecycleOp::Clean, canonical_text(instance_uuid.value), &final(self).hv, outcome)]
                old(self).hv.does(
                    LifecycleOp::Clean,
                    canonical_text(instance_uuid.value),
                    &final(self).hv,
                    outcome,
                ) && is_identifier_reply(outcome, r),
            old(self).serving() && r is Err ==> r.unwrap_err().kind == ErrorKind::Hypervisor,
    {
        self.serve(LifecycleOp::Clean, instance_uuid)
    }

    /// Serves a request to start an instance. A bridge that does not serve
    /// turns it away with a transport error and leaves the plugin alone. A
    /// serving bridge calls the plugin's `start_fdu` with the canonical text of
    /// `instance_uuid`; the plugin is left as that call left it, and the
    /// result is the reply to what the call handed back, as
    /// [`is_identifier_reply`] says. The bridge's own state does not change.
    pub fn start_fdu(&mut self, instance_uuid: Identifier) -> (r: Result<Identifier, FError>)
        ensures
            final(self).state == old(self).state,
            !old(self).serving() ==> final(self).hv == old(self).hv && r is Err && r.unwrap_err().kind
                == ErrorKind::Transport && r.unwrap_err().message@ == not_serving(),
            old(self).serving() ==> exists|outcome: Result<PluginValue, String>|
                #![trigger old(self).hv.does(LifecycleOp::Start, canonical_text(instance_uuid.value), &final(self).hv, outcome)]
                old(self).hv.does(
                    LifecycleOp::Start,
                    canonical_text(instance_uuid.value),
                    &final(self).hv,
                    outcome,
                ) && is_identifier_reply(outcome, r),
            old(self).serving() && r is Err ==> r.unwrap_err().kind == ErrorKind::Hypervisor,
    {
        self.serve(LifecycleOp::Start, instance_uuid)
    }

    /// Serves a request to stop an instance. A bridge that does not serve
    /// turns it away with a transport error and leaves the plugin alone. A
    /// serving bridge calls the plugin's `stop_fdu` with the canonical text of
    /// `instance_uuid`; the plugin is left as that call left it, and the
    /// result is the reply to what the call handed back, as
    /// [`is_identifier_reply`] says. The bridge's own state does not change.
    pub fn stop_fdu(&mut self, instance_uuid: Identifier) -> (r: Result<Identifier, FError>)
        ensures
            final(self).state == old(self).state,
            !old(self).serving() ==> final(self).hv == old(self).hv && r is Err && r.unwrap_err().kind
                == ErrorKind::Transport && r.unwrap_err().message@ == not_serving(),
            old(self).serving() ==> exists|outcome: Result<PluginValue, String>|
                #![trigger old(self).hv.does(LifecycleOp::Stop, canonical_text(instance_uuid.value), &final(self).hv, outcome)]
                old(self).hv.does(
                    LifecycleOp::Stop,
                    canonical_text(instance_uuid.value),
                    &final(self).hv,
                    outcome,
                ) && is_identifier_reply(outcome, r),
            old(self).serving() && r is Err ==> r.unwrap_err().kind == ErrorKind::Hypervisor,
    {
        self.serve(LifecycleOp::Stop, instance_uuid)
    }

    /// Serves a request for the record of an instance. A bridge that does
    /// not serve turns it away with a transport error. A serving bridge calls
    /// the plugin's `get_fdu_status` with the canonical text of
    /// `instance_uuid`, and the result is the reply to what the call handed
    /// back, as [`is_record_reply`] says.
    pub fn get_fdu_status(&self, instance_uuid: Identifier) -> (r: Result<FduRecord, FError>)
        ensures
            !self.serving() ==> r is Err && r.unwrap_err().kind == ErrorKind::Transport
                && r.unwrap_err().message@ == not_serving(),
            self.serving() ==> exists|outcome: Result<PluginValue, String>|
                #![trigger self.hv.reports(canonical_text(instance_uuid.value), outcome)]
                self.hv.reports(canonical_text(instance_uuid.value), outcome) && is_record_reply(
                    outcome,
                    r,
                ),
            self.serving() && r is Err ==> r.unwrap_err().kind == ErrorKind::Hypervisor,
    {
        match self.state.accept() {
            Ok(_) => call_status(&self.hv, instance_uuid),
            Err(e) => Err(e),
        }
    }

    /// Reserved. Always fails as not implemented, and changes nothing.
    pub fn run_fdu(&mut self, instance_uuid: Identifier) -> (r: Result<Identifier, FError>)
        ensures
            *final(self) == *old(self),
            r is Err,
            r.unwrap_err().kind == ErrorKind::Unimplemented,
            r.unwrap_err().message@ == "not implemented"@,
    {
        Err(FError::unimplemented())
    }

    /// Reserved. Always fails as not implemented, and changes nothing.
    pub fn log_fdu(&mut self, instance_uuid: Identifier) -> (r: Result<String, FError>)
        ensures
            *final(self) == *old(self),
            r is Err,
            r.unwrap_err().kind == ErrorKind::Unimplemented,
            r.unwrap_err().message@ == "not implemented"@,
    {
        Err(FError::unimplemented())
    }

    /// Reserved. Always fails as not implemented, and changes nothing.
    pub fn ls_fdu(&mut self, instance_uuid: Identifier) -> (r: Result<Vec<String>, FError>)
        ensures
            *final(self) == *old(self),
            r is Err,
            r.unwrap_err().kind == ErrorKind::Unimplemented,
            r.unwrap_err().message@ == "not implemented"@,
    {
        Err(FError::unimplemented())
    }

    /// Reserved. Always fails as not implemented, and changes nothing.
    pub fn file_fdu(&mut self, instance_uuid: Identifier, file_name: String) -> (r: Result<
        String,
        FError,
    >)
        ensures
            *final(self) == *old(self),
            r is Err,
            r.unwrap_err().kind == ErrorKind::Unimplemented,
            r.unwrap_err().message@ == "not implemented"@,
    {
        Err(FError::unimplemented())
    }

    /// Reserved. Always fails as not implemented, and changes nothing.
    pub fn migrate_fdu(&mut self, instance_uuid: Identifier, destination_uuid: Identifier) -> (r:
        Result<Identifier, FError>)
        ensures
            *final(self) == *old(self),
            r is Err,
            r.unwrap_err().kind == ErrorKind::Unimplemented,
            r.unwrap_err().message@ == "not implemented"@,
    {
        Err(FError::unimplemented())
    }
}

/// What can happen to a bridge: its owner starts it or sends the stop
/// signal, or the serve loop reports an event.
pub enum BridgeInput {
    Start,
    Stop,
    Report(BridgeEvent),
}

impl BridgeView {
    /// The state after one input. A start or a stop signal that is not
    /// accepted changes nothing.
    pub open spec fn on(self, input: BridgeInput) -> BridgeView {
        match input {
            BridgeInput::Start => if self.can_start() {
                self.started()
            } else {
                self
            },
            BridgeInput::Stop => if self.can_stop() {
                self.stopped()
            } else {
                self
            },
            BridgeInput::Report(event) => self.after(event),
        }
    }

    /// The state after a row of inputs, first to last.
    pub open spec fn on_all(self, inputs: Seq<BridgeInput>) -> BridgeView
        decreases inputs.len(),
    {
        if inputs.len() == 0 {
            self
        } else {
            self.on_all(inputs.drop_last()).on(inputs.last())
        }
    }
}

/// Whatever happens to a bridge, its runtime state stays well formed.
pub proof fn law_state_stays_well_formed(v: BridgeView, inputs: Seq<BridgeInput>)
    requires
        v.wf(),
    ensures
        v.on_all(inputs).wf(),
    decreases inputs.len(),
{
    if inputs.len() > 0 {
        law_state_stays_well_formed(v, inputs.drop_last());
    }
}

/// A bridge takes one stop signal. A bridge that was just made accepts one.
/// Once a signal was sent, whether it still waits or was taken, no other is
/// accepted, whatever happens in between: only a new bridge takes a signal
/// again.
pub proof fn law_one_stop_signal(v: BridgeView, inputs: Seq<BridgeInput>)
    requires
        v.stop != StopSignal::Idle,
    ensures
        BridgeView::fresh().can_stop(),
        v.on_all(inputs).stop != StopSignal::Idle,
        !v.on_all(inputs).can_stop(),
    decreases inputs.len(),
{
    if inputs.len() > 0 {
        law_one_stop_signal(v, inputs.drop_last());
    }
}

/// Before a bridge has registered it has no identifier. Once it has one,
/// it keeps that one, whatever happens: every later read gives the same.
pub proof fn law_instance_uuid_is_stable(v: BridgeView, inputs: Seq<BridgeInput>)
    requires
        v.wf(),
    ensures
        state_of(v.step) == BridgeState::Constructed || state_of(v.step) == BridgeState::Connecting
            || state_of(v.step) == BridgeState::Initializing ==> v.instance_uuid is None,
        v.instance_uuid is Some ==> v.on_all(inputs).instance_uuid == v.instance_uuid,
    decreases inputs.len(),
{
    if inputs.len() > 0 {
        law_instance_uuid_is_stable(v, inputs.drop_last());
        law_state_stays_well_formed(v, inputs.drop_last());
    }
}

/// The serve sequence in its order. A bridge that was just made and is
/// started connects, initialises, registers under the identifier it was
/// given, starts serving and serves; on the stop signal it stops serving,
/// unregisters and disconnects, and is then disconnected for good.
pub proof fn law_serve_sequence(id: Identifier)
    ensures
        ({
            let done = BridgeEvent::Completed;
            let connecting = BridgeView::fresh().on(BridgeInput::Start);
            let initializing = connecting.after(done);
            let registering = initializing.after(BridgeEvent::Initialized(id));
            let starting = registering.after(done);
            let serving = starting.after(done);
            let stopping = serving.after(BridgeEvent::StopRequested);
            let unregistering = stopping.after(done);
            let disconnecting = unregistering.after(done);
            let disconnected = disconnecting.after(done);
            &&& state_of(BridgeView::fresh().step) == BridgeState::Constructed
            &&& action_of(connecting.step) == BridgeAction::Connect
            &&& state_of(connecting.step) == BridgeState::Connecting
            &&& action_of(initializing.step) == BridgeAction::Initialize
            &&& state_of(initializing.step) == BridgeState::Initializing
            &&& action_of(registering.step) == BridgeAction::Register
            &&& state_of(registering.step) == BridgeState::Registered
            &&& registering.instance_uuid == Some(id)
            &&& action_of(starting.step) == BridgeAction::StartServing
            &&& state_of(starting.step) == BridgeState::Registered
            &&& action_of(serving.step) == (BridgeAction::Monitor { interval: MONITORING_INTERVAL })
            &&& state_of(serving.step) == BridgeState::Serving
            &&& action_of(stopping.step) == BridgeAction::StopServing
            &&& state_of(stopping.step) == BridgeState::Stopping
            &&& action_of(unregistering.step) == BridgeAction::Unregister
            &&& state_of(unregistering.step) == BridgeState::Stopping
            &&& action_of(disconnecting.step) == BridgeAction::Disconnect
            &&& state_of(disconnecting.step) == BridgeState::Stopping
            &&& action_of(disconnected.step) == BridgeAction::Halt
            &&& state_of(disconnected.step) == BridgeState::Disconnected
            &&& disconnected.instance_uuid == Some(id)
        }),
{
}

/// A step that fails ends the bridge: from whatever step of the sequence,
/// the failure leaves the bridge aborted, with nothing due and not serving.
pub proof fn law_failure_is_fatal(v: BridgeView, message: String)
    requires
        is_outside_step(v.step),
    ensures
        v.after(BridgeEvent::Failed(message)).step == BridgeStep::Aborted,
        action_of(v.after(BridgeEvent::Failed(message)).step) == BridgeAction::Halt,
        state_of(v.after(BridgeEvent::Failed(message)).step) == BridgeState::Aborted,
{
}

/// Serving ends on the stop signal and on nothing else: a tick keeps the
/// bridge serving, and so does every other input but the report that the
/// signal arrived.
pub proof fn law_serving_ends_on_stop(v: BridgeView, input: BridgeInput)
    requires
        v.step == BridgeStep::Monitor,
    ensures
        v.on(input).step != BridgeStep::Monitor ==> input == BridgeInput::Report(
            BridgeEvent::StopRequested,
        ),
        v.on(BridgeInput::Report(BridgeEvent::Tick)).step == BridgeStep::Monitor,
        v.on(BridgeInput::Report(BridgeEvent::StopRequested)).step == BridgeStep::StopServing,
{
}

/// A bridge that is disconnected or aborted stays so: it is not started
/// again.
pub proof fn law_the_end_is_final(v: BridgeView, inputs: Seq<BridgeInput>)
    requires
        v.step == BridgeStep::Done || v.step == BridgeStep::Aborted,
    ensures
        v.on_all(inputs) == v,
    decreases inputs.len(),
{
    if inputs.len() > 0 {
        law_the_end_is_final(v, inputs.drop_last());
    }
}

} // verus!
