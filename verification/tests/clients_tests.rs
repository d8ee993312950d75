use fog05::clients::{AgentClient, AgentRequest, NetClient, OsClient, OsRequest};
use fog05::error::{ErrorKind, FError};
use fog05::identifier::Identifier;
use fog05::im::PluginKind;
use fog05::session::client_properties;

const A: &str = "936da01f-9abd-4d9d-80c7-02af85c822a8";
const A_VALUE: u128 = 0x936da01f9abd4d9d80c702af85c822a8;
const SERVER: &str = "00000000-0000-0000-0000-000000000001";

fn client() -> AgentClient {
    AgentClient::new(SERVER).unwrap()
}

#[test]
fn a_client_addresses_the_agent_it_was_made_for() {
    assert_eq!(client().server_uuid, Identifier::from_u128(1));
    let e = AgentClient::new("nobody").unwrap_err();
    assert_eq!(e.kind(), ErrorKind::MalformedInput);
    assert_eq!(e.message(), "invalid length: expected one of [36, 32], found 6");
}

#[test]
fn a_hypervisor_plugin_registers_under_its_name() {
    assert_eq!(
        client().register_hv_plugin(A, "lxd".to_string()).unwrap(),
        AgentRequest::RegisterPlugin {
            plugin_uuid: Identifier::from_u128(A_VALUE),
            kind: PluginKind::Hypervisor("lxd".to_string()),
        }
    );
}

#[test]
fn a_networking_plugin_registers_as_such() {
    assert_eq!(
        client().register_net_plugin(A).unwrap(),
        AgentRequest::RegisterPlugin {
            plugin_uuid: Identifier::from_u128(A_VALUE),
            kind: PluginKind::Networking,
        }
    );
}

#[test]
fn a_registration_is_withdrawn_by_the_plugins_identifier() {
    assert_eq!(
        client().unregister_plugin(A).unwrap(),
        AgentRequest::UnregisterPlugin { plugin_uuid: Identifier::from_u128(A_VALUE) }
    );
}

#[test]
fn registration_fails_on_a_malformed_identifier() {
    let message = "invalid length: expected one of [36, 32], found 3".to_string();
    let expected = FError::new(ErrorKind::MalformedInput, message);
    assert_eq!(client().register_hv_plugin("abc", "lxd".to_string()).unwrap_err(), expected);
    assert_eq!(client().register_net_plugin("abc").unwrap_err(), expected);
    assert_eq!(client().unregister_plugin("abc").unwrap_err(), expected);
}

#[test]
fn the_agents_answer_to_a_registration_is_written_as_text() {
    assert_eq!(client().registered(Ok(Identifier::from_u128(A_VALUE))), Ok(A.to_string()));
    let e = FError::new(ErrorKind::Transport, "unreachable".to_string());
    assert_eq!(client().registered(Err(e.clone())), Err(e));
}

#[test]
fn found_servers_are_listed_by_their_text_in_order() {
    let found = vec![Identifier::from_u128(2), Identifier::from_u128(A_VALUE), Identifier::from_u128(1)];
    assert_eq!(
        AgentClient::find_servers(&found),
        vec![
            "00000000-0000-0000-0000-000000000002".to_string(),
            A.to_string(),
            SERVER.to_string(),
        ]
    );
    assert_eq!(AgentClient::find_servers(&Vec::new()), Vec::<String>::new());
}

#[test]
fn a_session_is_opened_as_a_client_of_the_router() {
    assert_eq!(client_properties("tcp/127.0.0.1:7447"), "mode=client;peer=tcp/127.0.0.1:7447");
    assert_eq!(client_properties(""), "mode=client;peer=");
}

#[test]
fn the_other_clients_address_their_plugin() {
    assert_eq!(OsClient::new(SERVER).unwrap().server_uuid, Identifier::from_u128(1));
    assert_eq!(NetClient::new(SERVER).unwrap().server_uuid, Identifier::from_u128(1));
    let message = "invalid length: expected one of [36, 32], found 0".to_string();
    let expected = FError::new(ErrorKind::MalformedInput, message);
    assert_eq!(OsClient::new("").unwrap_err(), expected);
    assert_eq!(NetClient::new("").unwrap_err(), expected);
}

#[test]
fn a_download_is_asked_for_with_the_url_as_the_parser_writes_it() {
    let os = OsClient::new(SERVER).unwrap();
    assert_eq!(
        os.download_file("HTTP://Example.NET:80/a/../image.tar", "/tmp/image.tar".to_string()),
        Ok(OsRequest::DownloadFile {
            url: "http://example.net/image.tar".to_string(),
            dest_path: "/tmp/image.tar".to_string(),
        })
    );
    assert_eq!(
        os.download_file("file:///var/fos/image.qcow2", "image".to_string()),
        Ok(OsRequest::DownloadFile {
            url: "file:///var/fos/image.qcow2".to_string(),
            dest_path: "image".to_string(),
        })
    );
}

#[test]
fn a_download_from_what_is_no_url_fails() {
    let os = OsClient::new(SERVER).unwrap();
    assert_eq!(
        os.download_file("image.tar", "/tmp/image.tar".to_string()),
        Err(FError::new(ErrorKind::MalformedInput, "relative URL without a base".to_string()))
    );
    assert_eq!(
        os.download_file("http://example.net:port/", "/tmp/image.tar".to_string()),
        Err(FError::new(ErrorKind::MalformedInput, "invalid port number".to_string()))
    );
    assert_eq!(
        os.download_file("http://", "x".to_string()),
        Err(FError::new(ErrorKind::MalformedInput, "empty host".to_string()))
    );
}

#[test]
fn a_download_request_is_made_of_what_the_parser_said() {
    assert_eq!(
        OsClient::download_request(Ok("http://a/".to_string()), "b".to_string()),
        Ok(OsRequest::DownloadFile { url: "http://a/".to_string(), dest_path: "b".to_string() })
    );
    assert_eq!(
        OsClient::download_request(Err("empty host".to_string()), "b".to_string()),
        Err(FError::new(ErrorKind::MalformedInput, "empty host".to_string()))
    );
}

#[test]
fn a_download_agrees_with_the_url_crate() {
    let os = OsClient::new(SERVER).unwrap();
    let texts = ["https://example.net", "ftp://u:p@h/x y", "mailto:a@b", "//x", "", "a:b", "http://[::1]:8080/"];
    for text in texts {
        match (os.download_file(text, String::new()), url::Url::parse(text)) {
            (Ok(OsRequest::DownloadFile { url, dest_path }), Ok(theirs)) => {
                assert_eq!(url, theirs.as_str());
                assert_eq!(dest_path, "");
            }
            (Err(e), Err(theirs)) => {
                assert_eq!(e, FError::new(ErrorKind::MalformedInput, theirs.to_string()));
            }
            (ours, theirs) => panic!("{:?} and {:?} on {:?}", ours, theirs, text),
        }
    }
}
