use fog05::agent::{Agent, Verdict};
use fog05::api::{ApiReply, ApiRequest};
use fog05::error::{ErrorKind, FError};
use fog05::identifier::Identifier;
use fog05::im::{FduDescriptor, FduRecord, FduState};
use fog05::lifecycle::LifecycleOp;

const NODE: u128 = 1000;
const FDU: u128 = 10;
const INSTANCE: u128 = 20;

fn id(n: u128) -> Identifier {
    Identifier::from_u128(n)
}

fn lifecycle_error(message: &str) -> FError {
    FError::new(ErrorKind::Lifecycle, message.to_string())
}

fn defined(node: Option<Identifier>) -> FduRecord {
    FduRecord { uuid: id(INSTANCE), fdu_uuid: id(FDU), node, status: FduState::Defined }
}

/// Books with one descriptor and one instance of it.
fn books() -> Agent {
    let mut agent = Agent::new(id(NODE));
    agent.onboard(FduDescriptor::with_uuid(id(FDU)), id(0)).unwrap();
    agent.define(id(FDU), None, id(INSTANCE)).unwrap();
    agent
}

/// Takes the instance of `books` through `ops`, the plugin agreeing.
fn after(ops: &[LifecycleOp]) -> Agent {
    let mut agent = books();
    for op in ops {
        agent.conclude(*op, id(INSTANCE), Ok(id(INSTANCE))).unwrap();
    }
    agent
}

#[test]
fn new_books_are_empty() {
    let agent = Agent::new(id(NODE));
    assert_eq!(agent.node(), id(NODE));
    assert_eq!(agent.get_fdu_status(id(INSTANCE)), Err(lifecycle_error("not found")));
}

#[test]
fn a_descriptor_is_onboarded_under_its_own_identifier() {
    let mut agent = Agent::new(id(NODE));
    assert_eq!(agent.onboard(FduDescriptor::with_uuid(id(FDU)), id(99)), Ok(id(FDU)));
    assert_eq!(agent.define(id(99), None, id(1)), Err(lifecycle_error("not found")));
    assert!(agent.define(id(FDU), None, id(1)).is_ok());
}

#[test]
fn a_descriptor_without_identifier_is_given_the_fresh_one() {
    let mut agent = Agent::new(id(NODE));
    assert_eq!(agent.onboard(FduDescriptor::new(), id(99)), Ok(id(99)));
    assert!(agent.define(id(99), None, id(1)).is_ok());
}

#[test]
fn a_descriptor_is_onboarded_once() {
    let mut agent = Agent::new(id(NODE));
    agent.onboard(FduDescriptor::with_uuid(id(FDU)), id(99)).unwrap();
    let expected = Err(lifecycle_error("already present"));
    assert_eq!(agent.onboard(FduDescriptor::with_uuid(id(FDU)), id(98)), expected);
    assert_eq!(agent.onboard(FduDescriptor::new(), id(FDU)), expected);
    assert_eq!(agent.onboard(FduDescriptor::new(), id(98)), Ok(id(98)));
}

#[test]
fn defining_creates_a_record_in_defined_status() {
    let mut agent = Agent::new(id(NODE));
    agent.onboard(FduDescriptor::with_uuid(id(FDU)), id(0)).unwrap();
    assert_eq!(agent.define(id(FDU), None, id(INSTANCE)), Ok(defined(None)));
    assert_eq!(agent.get_fdu_status(id(INSTANCE)), Ok(defined(None)));
    let bound = FduRecord {
        uuid: id(21),
        fdu_uuid: id(FDU),
        node: Some(id(7)),
        status: FduState::Defined,
    };
    assert_eq!(agent.define(id(FDU), Some(id(7)), id(21)), Ok(bound));
    assert_eq!(agent.get_fdu_status(id(21)), Ok(bound));
    assert_eq!(agent.get_fdu_status(id(INSTANCE)), Ok(defined(None)));
}

#[test]
fn defining_needs_an_onboarded_descriptor_and_an_unused_identifier() {
    let mut agent = books();
    assert_eq!(agent.define(id(11), None, id(21)), Err(lifecycle_error("not found")));
    assert_eq!(agent.define(id(FDU), None, id(INSTANCE)), Err(lifecycle_error("already present")));
    assert_eq!(agent.define(id(11), None, id(INSTANCE)), Err(lifecycle_error("not found")));
    assert_eq!(agent.get_fdu_status(id(21)), Err(lifecycle_error("not found")));
    assert_eq!(agent.get_fdu_status(id(INSTANCE)), Ok(defined(None)));
}

#[test]
fn the_books_say_what_may_go_to_the_plugin() {
    let agent = books();
    assert_eq!(agent.permit(LifecycleOp::Configure, id(INSTANCE)), Ok(()));
    assert_eq!(agent.permit(LifecycleOp::Undefine, id(INSTANCE)), Ok(()));
    let refused = Err(lifecycle_error("transition not allowed"));
    assert_eq!(agent.permit(LifecycleOp::Start, id(INSTANCE)), refused);
    assert_eq!(agent.permit(LifecycleOp::Stop, id(INSTANCE)), refused);
    assert_eq!(agent.permit(LifecycleOp::Clean, id(INSTANCE)), refused);
    assert_eq!(agent.permit(LifecycleOp::Configure, id(21)), Err(lifecycle_error("not found")));
    let agent = after(&[LifecycleOp::Configure, LifecycleOp::Start]);
    assert_eq!(agent.permit(LifecycleOp::Stop, id(INSTANCE)), Ok(()));
    assert_eq!(agent.permit(LifecycleOp::Start, id(INSTANCE)), refused);
}

#[test]
fn an_instance_that_was_not_configured_does_not_start() {
    let mut agent = books();
    let refused = lifecycle_error("transition not allowed");
    assert_eq!(agent.receive(ApiRequest::StartFdu(id(INSTANCE)), id(0)), Err(refused.clone()));
    assert_eq!(agent.conclude(LifecycleOp::Start, id(INSTANCE), Ok(id(INSTANCE))), Err(refused));
    assert_eq!(agent.get_fdu_status(id(INSTANCE)), Ok(defined(None)));
}

#[test]
fn the_plugins_success_moves_the_record_on() {
    let mut agent = books();
    let configured = FduRecord {
        uuid: id(INSTANCE),
        fdu_uuid: id(FDU),
        node: Some(id(NODE)),
        status: FduState::Configured,
    };
    assert_eq!(agent.conclude(LifecycleOp::Configure, id(INSTANCE), Ok(id(INSTANCE))), Ok(configured));
    assert_eq!(agent.get_fdu_status(id(INSTANCE)), Ok(configured));
    let running = FduRecord { status: FduState::Running, ..configured };
    assert_eq!(agent.conclude(LifecycleOp::Start, id(INSTANCE), Ok(id(INSTANCE))), Ok(running));
    assert_eq!(agent.get_fdu_status(id(INSTANCE)), Ok(running));
}

#[test]
fn a_node_given_at_definition_stays() {
    let mut agent = Agent::new(id(NODE));
    agent.onboard(FduDescriptor::with_uuid(id(FDU)), id(0)).unwrap();
    agent.define(id(FDU), Some(id(7)), id(INSTANCE)).unwrap();
    let r = agent.conclude(LifecycleOp::Configure, id(INSTANCE), Ok(id(INSTANCE))).unwrap();
    assert_eq!(r.node, Some(id(7)));
}

#[test]
fn the_plugins_failure_leaves_the_books_as_they_were() {
    let mut agent = books();
    let e = FError::new(ErrorKind::Hypervisor, "no such container".to_string());
    assert_eq!(agent.conclude(LifecycleOp::Configure, id(INSTANCE), Err(e.clone())), Err(e.clone()));
    assert_eq!(agent.get_fdu_status(id(INSTANCE)), Ok(defined(None)));
    assert_eq!(agent.conclude(LifecycleOp::Undefine, id(INSTANCE), Err(e.clone())), Err(e.clone()));
    assert_eq!(agent.get_fdu_status(id(INSTANCE)), Ok(defined(None)));
    assert_eq!(agent.conclude(LifecycleOp::Start, id(21), Err(e.clone())), Err(e));
}

#[test]
fn concluding_is_screened_like_the_request() {
    let mut agent = books();
    assert_eq!(
        agent.conclude(LifecycleOp::Stop, id(INSTANCE), Ok(id(INSTANCE))),
        Err(lifecycle_error("transition not allowed"))
    );
    assert_eq!(
        agent.conclude(LifecycleOp::Configure, id(21), Ok(id(21))),
        Err(lifecycle_error("not found"))
    );
    assert_eq!(agent.get_fdu_status(id(INSTANCE)), Ok(defined(None)));
}

#[test]
fn undefining_takes_the_record_out() {
    let mut agent = books();
    agent.define(id(FDU), None, id(21)).unwrap();
    assert_eq!(
        agent.conclude(LifecycleOp::Undefine, id(INSTANCE), Ok(id(INSTANCE))),
        Ok(defined(None))
    );
    assert_eq!(agent.get_fdu_status(id(INSTANCE)), Err(lifecycle_error("not found")));
    assert_eq!(agent.permit(LifecycleOp::Configure, id(INSTANCE)), Err(lifecycle_error("not found")));
    assert!(agent.get_fdu_status(id(21)).is_ok());
    assert_eq!(agent.define(id(FDU), None, id(INSTANCE)), Ok(defined(None)));
}

#[test]
fn a_descriptor_with_instances_is_not_offloaded() {
    let mut agent = books();
    assert_eq!(agent.offload(id(FDU)), Err(lifecycle_error("the descriptor has instances")));
    assert_eq!(agent.offload(id(11)), Err(lifecycle_error("not found")));
    agent.conclude(LifecycleOp::Undefine, id(INSTANCE), Ok(id(INSTANCE))).unwrap();
    assert_eq!(agent.offload(id(FDU)), Ok(id(FDU)));
    assert_eq!(agent.offload(id(FDU)), Err(lifecycle_error("not found")));
    assert_eq!(agent.define(id(FDU), None, id(INSTANCE)), Err(lifecycle_error("not found")));
}

#[test]
fn offloading_one_descriptor_leaves_the_others() {
    let mut agent = books();
    agent.onboard(FduDescriptor::with_uuid(id(11)), id(0)).unwrap();
    agent.onboard(FduDescriptor::with_uuid(id(12)), id(0)).unwrap();
    assert_eq!(agent.offload(id(11)), Ok(id(11)));
    assert!(agent.define(id(12), None, id(22)).is_ok());
    assert!(agent.define(id(FDU), None, id(23)).is_ok());
    assert_eq!(agent.define(id(11), None, id(24)), Err(lifecycle_error("not found")));
}

#[test]
fn a_request_is_settled_or_sent_to_the_plugin() {
    let mut agent = Agent::new(id(NODE));
    assert_eq!(
        agent.receive(ApiRequest::OnboardFdu(FduDescriptor::new()), id(FDU)),
        Ok(Verdict::Reply(ApiReply::Identifier(id(FDU))))
    );
    assert_eq!(
        agent.receive(ApiRequest::DefineFdu { fdu_uuid: id(FDU), node_uuid: None }, id(INSTANCE)),
        Ok(Verdict::Reply(ApiReply::Record(defined(None))))
    );
    assert_eq!(
        agent.receive(ApiRequest::ConfigureFdu(id(INSTANCE)), id(0)),
        Ok(Verdict::Dispatch { op: LifecycleOp::Configure, instance_uuid: id(INSTANCE) })
    );
    assert_eq!(
        agent.receive(ApiRequest::UndefineFdu(id(INSTANCE)), id(0)),
        Ok(Verdict::Dispatch { op: LifecycleOp::Undefine, instance_uuid: id(INSTANCE) })
    );
    assert_eq!(agent.get_fdu_status(id(INSTANCE)), Ok(defined(None)));
    let refused = Err(lifecycle_error("transition not allowed"));
    assert_eq!(agent.receive(ApiRequest::StopFdu(id(INSTANCE)), id(0)), refused);
    assert_eq!(agent.receive(ApiRequest::CleanFdu(id(INSTANCE)), id(0)), refused);
    assert_eq!(
        agent.receive(ApiRequest::CleanFdu(id(21)), id(0)),
        Err(lifecycle_error("not found"))
    );
    assert_eq!(
        agent.receive(ApiRequest::OffloadFdu(id(FDU)), id(0)),
        Err(lifecycle_error("the descriptor has instances"))
    );
    agent.conclude(LifecycleOp::Undefine, id(INSTANCE), Ok(id(INSTANCE))).unwrap();
    assert_eq!(
        agent.receive(ApiRequest::OffloadFdu(id(FDU)), id(0)),
        Ok(Verdict::Reply(ApiReply::Identifier(id(FDU))))
    );
    assert_eq!(
        agent.receive(ApiRequest::DefineFdu { fdu_uuid: id(FDU), node_uuid: None }, id(INSTANCE)),
        Err(lifecycle_error("not found"))
    );
}

#[test]
fn requests_after_each_step_follow_the_lifecycle() {
    let steps = [
        LifecycleOp::Configure,
        LifecycleOp::Start,
        LifecycleOp::Stop,
        LifecycleOp::Clean,
    ];
    let expected = [
        FduState::Configured,
        FduState::Running,
        FduState::Configured,
        FduState::Defined,
    ];
    for n in 0..steps.len() {
        let agent = after(&steps[..=n]);
        let record = agent.get_fdu_status(id(INSTANCE)).unwrap();
        assert_eq!(record.status, expected[n]);
        assert_eq!(record.uuid, id(INSTANCE));
        assert_eq!(record.node, Some(id(NODE)));
    }
}
