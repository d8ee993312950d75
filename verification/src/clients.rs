//! The clients of an agent's plugin interface and of the node's operating
//! system and networking plugins.
//!
//! As with the lifecycle client, each operation reads what it was given and
//! makes the request that is to be sent; a text that is no identifier, or no
//! URL where one is asked for, fails the operation before anything is sent.

use crate::api::read;
use crate::error::{ErrorKind, FError};
use crate::identifier::{canonical_text, is_well_formed, uuid_parse_error, Identifier};
use crate::im::PluginKind;
use vstd::prelude::*;

verus! {

/// A request to the agent's plugin interface.
#[derive(Clone, Debug, PartialEq, Eq)]
pub enum AgentRequest {
    RegisterPlugin { plugin_uuid: Identifier, kind: PluginKind },
    UnregisterPlugin { plugin_uuid: Identifier },
}

/// The client of one agent.
#[derive(Clone, Copy, Debug, PartialEq, Eq, Hash)]
pub struct AgentClient {
    /// The agent that is addressed.
    pub server_uuid: Identifier,
}

impl AgentClient {
    /// A client of the agent that `server_uuid` names; a malformed
    /// identifier fails with the parser's message.
    pub fn new(server_uuid: &str) -> (r: Result<AgentClient, FError>)
        ensures
            match r {
                Ok(client) => is_well_formed(server_uuid@) && client.server_uuid == read(
                    server_uuid@,
                ),
                Err(e) => {
                    &&& !is_well_formed(server_uuid@)
                    &&& e.kind == ErrorKind::MalformedInput
                    &&& e.message@ == uuid_parse_error(server_uuid@)
                },
            },
    {
        Ok(AgentClient { server_uuid: Identifier::parse(server_uuid)? })
    }

    /// The request to register a hypervisor plugin that runs `name`; a
    /// malformed identifier fails with the parser's message.
    pub fn register_hv_plugin(&self, plugin_uuid: &str, name: String) -> (r: Result<
        AgentRequest,
        FError,
    >)
        ensures
            match r {
                Ok(request) => is_well_formed(plugin_uuid@) && request
                    == (AgentRequest::RegisterPlugin {
                    plugin_uuid: read(plugin_uuid@),
                    kind: PluginKind::Hypervisor(name),
                }),
                Err(e) => {
                    &&& !is_well_formed(plugin_uuid@)
                    &&& e.kind == ErrorKind::MalformedInput
                    &&& e.message@ == uuid_parse_error(plugin_uuid@)
                },
            },
    {
        let plugin_uuid = Identifier::parse(plugin_uuid)?;
        Ok(AgentRequest::RegisterPlugin { plugin_uuid, kind: PluginKind::Hypervisor(name) })
    }

    /// The request to register a networking plugin; a malformed identifier
    /// fails with the parser's message.
    pub fn register_net_plugin(&self, plugin_uuid: &str) -> (r: Result<AgentRequest, FError>)
        ensures
            match r {
                Ok(request) => is_well_formed(plugin_uuid@) && request
                    == (AgentRequest::RegisterPlugin {
                    plugin_uuid: read(plugin_uuid@),
                    kind: PluginKind::Networking,
                }),
                Err(e) => {
                    &&& !is_well_formed(plugin_uuid@)
                    &&& e.kind == ErrorKind::MalformedInput
                    &&& e.message@ == uuid_parse_error(plugin_uuid@)
                },
            },
    {
        let plugin_uuid = Identifier::parse(plugin_uuid)?;
        Ok(AgentRequest::RegisterPlugin { plugin_uuid, kind: PluginKind::Networking })
    }

    /// The request to withdraw a plugin's registration; a malformed
    /// identifier fails with the parser's message.
    pub fn unregister_plugin(&self, plugin_uuid: &str) -> (r: Result<AgentRequest, FError>)
        ensures
            match r {
                Ok(request) => is_well_formed(plugin_uuid@) && request
                    == (AgentRequest::UnregisterPlugin { plugin_uuid: read(plugin_uuid@) }),
                Err(e) => {
                    &&& !is_well_formed(plugin_uuid@)
                    &&& e.kind == ErrorKind::MalformedInput
                    &&& e.message@ == uuid_parse_error(plugin_uuid@)
                },
            },
    {
        let plugin_uuid = Identifier::parse(plugin_uuid)?;
        Ok(AgentRequest::UnregisterPlugin { plugin_uuid })
    }

    /// The result of a registration or of its withdrawal: the canonical text
    /// of the identifier the agent answered with, or the agent's error as it
    /// came.
    pub fn registered(&self, outcome: Result<Identifier, FError>) -> (r: Result<String, FError>)
        ensures
            match outcome {
                Ok(id) => r is Ok && r.unwrap()@ == canonical_text(id.value),
                Err(e) => r == Err::<String, FError>(e),
            },
    {
        match outcome {
            Ok(id) => Ok(id.to_text()),
            Err(e) => Err(e),
        }
    }

    /// The agents that discovery found, each by its canonical text, in the
    /// order in which they were found.
    pub fn find_servers(found: &Vec<Identifier>) -> (servers: Vec<String>)
        ensures
            servers@.len() == found@.len(),
            forall|i: int|
                0 <= i < found@.len() ==> (#[trigger] servers@[i])@ == canonical_text(
                    found@[i].value,
                ),
    {
        let mut servers: Vec<String> = Vec::new();
        let mut i: usize = 0;
        while i < found.len()
            invariant
                i <= found@.len(),
                servers@.len() == i,
                forall|k: int|
                    0 <= k < i ==> (#[trigger] servers@[k])@ == canonical_text(found@[k].value),
            decreases found@.len() - i,
        {
            servers.push(found[i].to_text());
            i += 1;
        }
        servers
    }
}

/// What `url::Url::parse` makes of a text: the URL as the parser writes it
/// back, or the message with which the parser turns the text down.
pub uninterp spec fn url_parsed(input: Seq<char>) -> Result<Seq<char>, Seq<char>>;

/// `url::Url::parse`, with the URL taken out by its `Display`, which gives
/// the parser's own serialisation, and the error by its `Display`.
#[verifier::external_body]
fn url_parse(input: &str) -> (r: Result<String, String>)
    ensures
        match r {
            Ok(url) => url_parsed(input@) == Ok::<Seq<char>, Seq<char>>(url@),
            Err(message) => url_parsed(input@) == Err::<Seq<char>, Seq<char>>(message@),
        },
{
    match url::Url::parse(input) {
        Ok(url) => Ok(url.to_string()),
        Err(e) => Err(e.to_string()),
    }
}

/// A request to the node's operating system plugin.
#[derive(Clone, Debug, PartialEq, Eq)]
pub enum OsRequest {
    /// Fetch what is at `url` and keep it at `dest_path`.
    DownloadFile { url: String, dest_path: String },
}

/// The client of one node's operating system plugin.
#[derive(Clone, Copy, Debug, PartialEq, Eq, Hash)]
pub struct OsClient {
    /// The plugin that is addressed.
    pub server_uuid: Identifier,
}

/// The client of one node's networking plugin.
#[derive(Clone, Copy, Debug, PartialEq, Eq, Hash)]
pub struct NetClient {
    /// The plugin that is addressed.
    pub server_uuid: Identifier,
}

impl OsClient {
    /// A client of the plugin that `server_uuid` names; a malformed
    /// identifier fails with the parser's message.
    pub fn new(server_uuid: &str) -> (r: Result<OsClient, FError>)
        ensures
            match r {
                Ok(client) => is_well_formed(server_uuid@) && client.server_uuid == read(
                    server_uuid@,
                ),
                Err(e) => {
                    &&& !is_well_formed(server_uuid@)
                    &&& e.kind == ErrorKind::MalformedInput
                    &&& e.message@ == uuid_parse_error(server_uuid@)
                },
            },
    {
        Ok(OsClient { server_uuid: Identifier::parse(server_uuid)? })
    }

    /// The request to download to `dest_path`, given what the URL parser
    /// made of the address: the request with the URL as the parser wrote it,
    /// or malformed input with the parser's message.
    pub fn download_request(parsed: Result<String, String>, dest_path: String) -> (r: Result<
        OsRequest,
        FError,
    >)
        ensures
            match parsed {
                Ok(url) => r == Ok::<OsRequest, FError>(OsRequest::DownloadFile { url, dest_path }),
                Err(message) => {
                    &&& r is Err
                    &&& r.unwrap_err().kind == ErrorKind::MalformedInput
                    &&& r.unwrap_err().message@ == message@
                },
            },
    {
        match parsed {
            Ok(url) => Ok(OsRequest::DownloadFile { url, dest_path }),
            Err(message) => Err(FError::new(ErrorKind::MalformedInput, message)),
        }
    }

    /// The request to download what is at `url` to `dest_path`. The address
    /// is read by the URL parser first, and a text that the parser turns
    /// down fails the operation with the parser's message.
    pub fn download_file(&self, url: &str, dest_path: String) -> (r: Result<OsRequest, FError>)
        ensures
            match url_parsed(url@) {
                Ok(written) => {
                    &&& r matches Ok(OsRequest::DownloadFile { url: address, dest_path: path })
                    &&& address@ == written
                    &&& path == dest_path
                },
                Err(message) => {
                    &&& r is Err
                    &&& r.unwrap_err().kind == ErrorKind::MalformedInput
                    &&& r.unwrap_err().message@ == message
                },
            },
    {
        Self::download_request(url_parse(url), dest_path)
    }
}

impl NetClient {
    /// A client of the plugin that `server_uuid` names; a malformed
    /// identifier fails with the parser's message.
    pub fn new(server_uuid: &str) -> (r: Result<NetClient, FError>)
        ensures
            match r {
                Ok(client) => is_well_formed(server_uuid@) && client.server_uuid == read(
                    server_uuid@,
                ),
                Err(e) => {
                    &&& !is_well_formed(server_uuid@)
                    &&& e.kind == ErrorKind::MalformedInput
                    &&& e.message@ == uuid_parse_error(server_uuid@)
                },
            },
    {
        Ok(NetClient { server_uuid: Identifier::parse(server_uuid)? })
    }
}

} // verus!
