use fog05::error::ErrorKind;
use fog05::identifier::Identifier;
use fog05::im::{FduDescriptor, FduRecord, FduState};
use fog05::lifecycle::LifecycleOp;

fn id(n: u128) -> Identifier {
    Identifier::from_u128(n)
}

fn record(status: FduState, node: Option<Identifier>) -> FduRecord {
    FduRecord { uuid: id(1), fdu_uuid: id(2), node, status }
}

const OPS: [LifecycleOp; 5] = [
    LifecycleOp::Configure,
    LifecycleOp::Start,
    LifecycleOp::Stop,
    LifecycleOp::Clean,
    LifecycleOp::Undefine,
];

#[test]
fn a_defined_record_starts_without_a_node_unless_one_is_given() {
    let r = FduRecord::define(id(1), id(2), None);
    assert_eq!(r, FduRecord { uuid: id(1), fdu_uuid: id(2), node: None, status: FduState::Defined });
    let r = FduRecord::define(id(1), id(2), Some(id(3)));
    assert_eq!(r.node, Some(id(3)));
    assert_eq!(r.status, FduState::Defined);
}

#[test]
fn a_descriptor_has_its_identifier_once_it_is_given_one() {
    assert_eq!(FduDescriptor::new().uuid, None);
    assert_eq!(FduDescriptor::with_uuid(id(9)).uuid, Some(id(9)));
}

#[test]
fn each_status_admits_its_own_operations_only() {
    let table = [
        (FduState::Defined, [true, false, false, false, true]),
        (FduState::Configured, [false, true, false, true, false]),
        (FduState::Running, [false, false, true, false, false]),
        (FduState::Unknown, [false, false, false, false, false]),
    ];
    for (status, admitted) in table {
        let r = record(status, Some(id(3)));
        for (op, expected) in OPS.iter().zip(admitted) {
            assert_eq!(r.can(*op), expected, "{:?} {:?}", status, op);
            assert_eq!(r.apply(*op, id(7)).is_ok(), expected, "{:?} {:?}", status, op);
        }
    }
}

#[test]
fn each_operation_leads_to_its_status() {
    let node = Some(id(3));
    let steps = [
        (FduState::Defined, LifecycleOp::Configure, FduState::Configured),
        (FduState::Configured, LifecycleOp::Start, FduState::Running),
        (FduState::Running, LifecycleOp::Stop, FduState::Configured),
        (FduState::Configured, LifecycleOp::Clean, FduState::Defined),
        (FduState::Defined, LifecycleOp::Undefine, FduState::Defined),
    ];
    for (from, op, to) in steps {
        let next = record(from, node).apply(op, id(7)).unwrap();
        assert_eq!(next, FduRecord { uuid: id(1), fdu_uuid: id(2), node, status: to });
    }
}

#[test]
fn configuring_binds_a_record_without_node_to_the_node_that_configures() {
    let next = record(FduState::Defined, None).apply(LifecycleOp::Configure, id(7)).unwrap();
    assert_eq!(next.node, Some(id(7)));
    let next = record(FduState::Defined, Some(id(3))).apply(LifecycleOp::Configure, id(7)).unwrap();
    assert_eq!(next.node, Some(id(3)));
    let next = record(FduState::Defined, None).apply(LifecycleOp::Undefine, id(7)).unwrap();
    assert_eq!(next.node, None);
}

#[test]
fn an_operation_out_of_turn_is_a_lifecycle_error() {
    let e = record(FduState::Defined, None).apply(LifecycleOp::Start, id(7)).unwrap_err();
    assert_eq!(e.kind(), ErrorKind::Lifecycle);
    assert_eq!(e.message(), "transition not allowed");
    let e = record(FduState::Running, Some(id(3))).apply(LifecycleOp::Undefine, id(7)).unwrap_err();
    assert_eq!(e.kind(), ErrorKind::Lifecycle);
    assert_eq!(e.message(), "transition not allowed");
}

#[test]
fn the_canonical_sequence_keeps_the_instance() {
    let defined = FduRecord::define(id(1), id(2), None);
    let mut r = defined;
    let expected = [
        FduState::Configured,
        FduState::Running,
        FduState::Configured,
        FduState::Defined,
        FduState::Defined,
    ];
    for (op, status) in OPS.iter().zip(expected) {
        r = r.apply(*op, id(7)).unwrap();
        assert_eq!(r.uuid, defined.uuid);
        assert_eq!(r.fdu_uuid, defined.fdu_uuid);
        assert_eq!(r.node, Some(id(7)));
        assert_eq!(r.status, status);
    }
}

#[test]
fn a_record_in_an_unknown_status_admits_nothing() {
    for op in OPS {
        let e = record(FduState::Unknown, Some(id(3))).apply(op, id(7)).unwrap_err();
        assert_eq!(e.kind(), ErrorKind::Lifecycle);
        assert_eq!(e.message(), "transition not allowed");
    }
}
