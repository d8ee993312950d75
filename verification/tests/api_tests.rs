use fog05::api::{ApiReply, ApiRequest, FduApi};
use fog05::error::{ErrorKind, FError};
use fog05::identifier::Identifier;
use fog05::im::{FduDescriptor, FduRecord, FduState};

const A: &str = "936da01f-9abd-4d9d-80c7-02af85c822a8";
const A_VALUE: u128 = 0x936da01f9abd4d9d80c702af85c822a8;
const B: &str = "00000000-0000-0000-0000-00000000002a";
const BAD: &str = "936da01f-9abd-4d9d-80c7";

fn a() -> Identifier {
    Identifier::from_u128(A_VALUE)
}

fn b() -> Identifier {
    Identifier::from_u128(42)
}

fn bad_message() -> String {
    uuid::Uuid::parse_str(BAD).unwrap_err().to_string()
}

#[test]
fn onboard_wraps_the_descriptor() {
    let d = FduDescriptor::with_uuid(a());
    assert_eq!(FduApi::new().onboard_fdu(d), ApiRequest::OnboardFdu(d));
    let d = FduDescriptor::new();
    assert_eq!(FduApi::new().onboard_fdu(d), ApiRequest::OnboardFdu(d));
}

#[test]
fn define_reads_both_identifiers() {
    let api = FduApi::new();
    assert_eq!(
        api.define_fdu(A, None).unwrap(),
        ApiRequest::DefineFdu { fdu_uuid: a(), node_uuid: None }
    );
    assert_eq!(
        api.define_fdu(A, Some(B)).unwrap(),
        ApiRequest::DefineFdu { fdu_uuid: a(), node_uuid: Some(b()) }
    );
}

#[test]
fn define_fails_on_the_first_malformed_identifier() {
    let api = FduApi::new();
    let e = api.define_fdu(BAD, Some(B)).unwrap_err();
    assert_eq!(e, FError::new(ErrorKind::MalformedInput, bad_message()));
    let e = api.define_fdu(A, Some(BAD)).unwrap_err();
    assert_eq!(e, FError::new(ErrorKind::MalformedInput, bad_message()));
    let e = api.define_fdu("zz", Some(BAD)).unwrap_err();
    assert_eq!(e.kind(), ErrorKind::MalformedInput);
    assert_eq!(e.message(), "invalid length: expected one of [36, 32], found 2");
    let e = api.define_fdu(BAD, None).unwrap_err();
    assert_eq!(e.message(), "invalid length: expected one of [36, 32], found 23");
}

#[test]
fn each_operation_on_an_instance_makes_its_request() {
    let api = FduApi::new();
    assert_eq!(api.configure_fdu(A).unwrap(), ApiRequest::ConfigureFdu(a()));
    assert_eq!(api.start_fdu(A).unwrap(), ApiRequest::StartFdu(a()));
    assert_eq!(api.stop_fdu(A).unwrap(), ApiRequest::StopFdu(a()));
    assert_eq!(api.clean_fdu(A).unwrap(), ApiRequest::CleanFdu(a()));
    assert_eq!(api.undefine_fdu(A).unwrap(), ApiRequest::UndefineFdu(a()));
    assert_eq!(api.offload_fdu(A).unwrap(), ApiRequest::OffloadFdu(a()));
}

#[test]
fn each_operation_fails_on_a_malformed_identifier() {
    let api = FduApi::new();
    let expected = FError::new(ErrorKind::MalformedInput, bad_message());
    assert_eq!(api.configure_fdu(BAD).unwrap_err(), expected);
    assert_eq!(api.start_fdu(BAD).unwrap_err(), expected);
    assert_eq!(api.stop_fdu(BAD).unwrap_err(), expected);
    assert_eq!(api.clean_fdu(BAD).unwrap_err(), expected);
    assert_eq!(api.undefine_fdu(BAD).unwrap_err(), expected);
    assert_eq!(api.offload_fdu(BAD).unwrap_err(), expected);
}

#[test]
fn an_identifier_in_another_form_makes_the_same_request() {
    let api = FduApi::new();
    assert_eq!(
        api.start_fdu("urn:uuid:936DA01F-9ABD-4D9D-80C7-02AF85C822A8").unwrap(),
        ApiRequest::StartFdu(a())
    );
    assert_eq!(
        api.start_fdu("936da01f9abd4d9d80c702af85c822a8").unwrap(),
        ApiRequest::StartFdu(a())
    );
}

#[test]
fn the_agents_record_is_handed_on_as_it_came() {
    let api = FduApi::new();
    let r = FduRecord { uuid: a(), fdu_uuid: b(), node: None, status: FduState::Running };
    assert_eq!(api.record(Ok(ApiReply::Record(r))), Ok(r));
}

#[test]
fn the_agents_error_is_handed_on_as_it_came() {
    let api = FduApi::new();
    for kind in [ErrorKind::Transport, ErrorKind::Lifecycle, ErrorKind::Hypervisor] {
        let e = FError::new(kind, "as it came".to_string());
        assert_eq!(api.record(Err(e.clone())), Err(e.clone()));
        assert_eq!(api.identifier(Err(e.clone())), Err(e));
    }
}

#[test]
fn the_agents_identifier_is_written_in_its_canonical_text() {
    let api = FduApi::new();
    assert_eq!(api.identifier(Ok(ApiReply::Identifier(a()))), Ok(A.to_string()));
    assert_eq!(api.identifier(Ok(ApiReply::Identifier(b()))), Ok(B.to_string()));
}

#[test]
fn a_reply_of_the_wrong_kind_is_a_transport_error() {
    let api = FduApi::new();
    let r = FduRecord { uuid: a(), fdu_uuid: b(), node: None, status: FduState::Defined };
    let expected = FError::new(
        ErrorKind::Transport,
        "the agent sent a reply of an unexpected kind".to_string(),
    );
    assert_eq!(api.record(Ok(ApiReply::Identifier(a()))), Err(expected.clone()));
    assert_eq!(api.identifier(Ok(ApiReply::Record(r))), Err(expected));
}

#[test]
fn errors_carry_their_kind_and_their_message() {
    let e = FError::new(ErrorKind::Bridge, "message".to_string());
    assert_eq!(e.kind(), ErrorKind::Bridge);
    assert_eq!(e.message(), "message");
    let e = FError::unimplemented();
    assert_eq!(e.kind(), ErrorKind::Unimplemented);
    assert_eq!(e.message(), "not implemented");
}
