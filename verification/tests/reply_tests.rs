use fog05::error::{ErrorKind, FError};
use fog05::identifier::Identifier;
use fog05::im::{FduDescriptor, FduRecord, FduState};
use fog05::lifecycle::LifecycleOp;
use fog05::plugins::{
    call_define, call_lifecycle, call_status, identifier_reply, record_reply, HypervisorPlugin,
    PluginValue,
};

/// A plugin that answers each call with the name of the callback.
struct Naming;

impl HypervisorPlugin for Naming {
    fn define_fdu(&mut self, _descriptor: FduDescriptor) -> Result<PluginValue, String> {
        Err("define_fdu".to_string())
    }

    fn undefine_fdu(&mut self, instance_uuid: &str) -> Result<PluginValue, String> {
        Err(format!("undefine_fdu {}", instance_uuid))
    }

    fn configure_fdu(&mut self, instance_uuid: &str) -> Result<PluginValue, String> {
        Err(format!("configure_fdu {}", instance_uuid))
    }

    fn clean_fdu(&mut self, instance_uuid: &str) -> Result<PluginValue, String> {
        Err(format!("clean_fdu {}", instance_uuid))
    }

    fn start_fdu(&mut self, instance_uuid: &str) -> Result<PluginValue, String> {
        Err(format!("start_fdu {}", instance_uuid))
    }

    fn stop_fdu(&mut self, instance_uuid: &str) -> Result<PluginValue, String> {
        Err(format!("stop_fdu {}", instance_uuid))
    }

    fn get_fdu_status(&self, instance_uuid: &str) -> Result<PluginValue, String> {
        Err(format!("get_fdu_status {}", instance_uuid))
    }
}

fn failure(message: &str) -> FError {
    FError::new(ErrorKind::Hypervisor, message.to_string())
}

#[test]
fn an_identifier_reply_reads_the_text() {
    let text = "00000000-0000-0000-0000-0000000000ff".to_string();
    assert_eq!(identifier_reply(Ok(PluginValue::Text(text))), Ok(Identifier::from_u128(255)));
    let text = "000000000000000000000000000000FF".to_string();
    assert_eq!(identifier_reply(Ok(PluginValue::Text(text))), Ok(Identifier::from_u128(255)));
}

#[test]
fn an_identifier_reply_wraps_every_failure() {
    assert_eq!(identifier_reply(Err("boom".to_string())), Err(failure("boom")));
    assert_eq!(identifier_reply(Err(String::new())), Err(failure("")));
    assert_eq!(
        identifier_reply(Ok(PluginValue::Text(String::new()))),
        Err(failure("invalid length: expected one of [36, 32], found 0"))
    );
    let mismatch = failure("the plugin returned a value of an unexpected type");
    assert_eq!(identifier_reply(Ok(PluginValue::Other)), Err(mismatch.clone()));
    let record = FduRecord {
        uuid: Identifier::from_u128(1),
        fdu_uuid: Identifier::from_u128(2),
        node: None,
        status: FduState::Defined,
    };
    assert_eq!(identifier_reply(Ok(PluginValue::Record(record))), Err(mismatch));
}

#[test]
fn a_record_reply_hands_the_record_on() {
    let record = FduRecord {
        uuid: Identifier::from_u128(1),
        fdu_uuid: Identifier::from_u128(2),
        node: Some(Identifier::from_u128(3)),
        status: FduState::Running,
    };
    assert_eq!(record_reply(Ok(PluginValue::Record(record))), Ok(record));
}

#[test]
fn a_record_reply_wraps_every_failure() {
    assert_eq!(record_reply(Err("boom".to_string())), Err(failure("boom")));
    let mismatch = failure("the plugin returned a value of an unexpected type");
    assert_eq!(record_reply(Ok(PluginValue::Other)), Err(mismatch.clone()));
    let text = "00000000-0000-0000-0000-0000000000ff".to_string();
    assert_eq!(record_reply(Ok(PluginValue::Text(text))), Err(mismatch));
}

#[test]
fn each_operation_has_its_callback() {
    let id = Identifier::from_u128(10);
    let text = "00000000-0000-0000-0000-00000000000a";
    let mut plugin = Naming;
    let table = [
        (LifecycleOp::Configure, "configure_fdu"),
        (LifecycleOp::Start, "start_fdu"),
        (LifecycleOp::Stop, "stop_fdu"),
        (LifecycleOp::Clean, "clean_fdu"),
        (LifecycleOp::Undefine, "undefine_fdu"),
    ];
    for (op, callback) in table {
        assert_eq!(
            call_lifecycle(&mut plugin, op, id),
            Err(failure(&format!("{} {}", callback, text)))
        );
    }
    assert_eq!(call_status(&plugin, id), Err(failure(&format!("get_fdu_status {}", text))));
    assert_eq!(call_define(&mut plugin, FduDescriptor::new()), Err(failure("define_fdu")));
}
