//! The lifecycle client.
//!
//! The client holds no state of the deployments and does not talk to the
//! agent itself. Each operation reads the identifiers it was given and
//! makes the request that is to be sent; a text that is no identifier fails
//! the operation before anything is sent. What came back from the agent is
//! handed to [`FduApi::record`] or [`FduApi::identifier`], which give the
//! caller the result: the agent's answer or its error, unchanged.

use crate::error::{ErrorKind, FError};
use crate::identifier::{canonical_text, is_well_formed, text_value, uuid_parse_error, Identifier};
use crate::im::{FduDescriptor, FduRecord};
use vstd::prelude::*;

verus! {

/// A request to the agent.
#[derive(Clone, Copy, Debug, PartialEq, Eq, Hash)]
pub enum ApiRequest {
    OnboardFdu(FduDescriptor),
    DefineFdu { fdu_uuid: Identifier, node_uuid: Option<Identifier> },
    ConfigureFdu(Identifier),
    StartFdu(Identifier),
    StopFdu(Identifier),
    CleanFdu(Identifier),
    UndefineFdu(Identifier),
    OffloadFdu(Identifier),
}

/// What the agent answers where it does not fail.
#[derive(Clone, Copy, Debug, PartialEq, Eq, Hash)]
pub enum ApiReply {
    Record(FduRecord),
    Identifier(Identifier),
}

/// The lifecycle client.
#[derive(Clone, Copy, Debug)]
pub struct FduApi {}

/// What reading `text` gives: the identifier it stands for.
pub open spec fn read(text: Seq<char>) -> Identifier {
    Identifier { value: text_value(text) as u128 }
}

/// The message of the error for an answer of the wrong shape.
pub open spec fn unexpected_reply() -> Seq<char> {
    "the agent sent a reply of an unexpected kind"@
}

impl FduApi {
    pub fn new() -> (api: FduApi) {
        FduApi {  }
    }

    /// The request for one instance: reads the identifier and wraps it.
    fn parse_instance(instance_uuid: &str) -> (r: Result<Identifier, FError>)
        ensures
            match r {
                Ok(id) => is_well_formed(instance_uuid@) && id == read(instance_uuid@),
                Err(e) => {
                    &&& !is_well_formed(instance_uuid@)
                    &&& e.kind == ErrorKind::MalformedInput
                    &&& e.message@ == uuid_parse_error(instance_uuid@)
                },
            },
    {
        Identifier::parse(instance_uuid)
    }

    /// The request to onboard a descriptor.
    pub fn onboard_fdu(&self, fdu: FduDescriptor) -> (request: ApiRequest)
        ensures
            request == ApiRequest::OnboardFdu(fdu),
    {
        ApiRequest::OnboardFdu(fdu)
    }

    /// The request to define an instance of a descriptor, on a node if one
    /// is named. The descriptor's identifier is read first, then the node's;
    /// the first that is malformed fails the operation with the parser's
    /// message for it.
    pub fn define_fdu(&self, fdu_uuid: &str, node_uuid: Option<&str>) -> (r: Result<
        ApiRequest,
        FError,
    >)
        ensures
            match r {
                Ok(request) => {
                    &&& is_well_formed(fdu_uuid@)
                    &&& node_uuid matches Some(node) ==> is_well_formed(node@)
                    &&& request == (ApiRequest::DefineFdu {
                        fdu_uuid: read(fdu_uuid@),
                        node_uuid: match node_uuid {
                            Some(node) => Some(read(node@)),
                            None => None,
                        },
                    })
                },
                Err(e) => {
                    &&& e.kind == ErrorKind::MalformedInput
                    &&& if !is_well_formed(fdu_uuid@) {
                        e.message@ == uuid_parse_error(fdu_uuid@)
                    } else {
                        &&& node_uuid matches Some(node)
                        &&& !is_well_formed(node@)
                        &&& e.message@ == uuid_parse_error(node@)
                    }
                },
            },
    {
        let fdu_uuid = Identifier::parse(fdu_uuid)?;
        let node_uuid = Identifier::parse_optional(node_uuid)?;
        Ok(ApiRequest::DefineFdu { fdu_uuid, node_uuid })
    }

    /// The request to configure an instance; a malformed identifier fails
    /// the operation with the parser's message.
    pub fn configure_fdu(&self, instance_uuid: &str) -> (r: Result<ApiRequest, FError>)
        ensures
            match r {
                Ok(request) => is_well_formed(instance_uuid@) && request
                    == ApiRequest::ConfigureFdu(read(instance_uuid@)),
                Err(e) => {
                    &&& !is_well_formed(instance_uuid@)
                    &&& e.kind == ErrorKind::MalformedInput
                    &&& e.message@ == uuid_parse_error(instance_uuid@)
                },
            },
    {
        Ok(ApiRequest::ConfigureFdu(Self::parse_instance(instance_uuid)?))
    }

    /// The request to start an instance; a malformed identifier fails the
    /// operation with the parser's message.
    pub fn start_fdu(&self, instance_uuid: &str) -> (r: Result<ApiRequest, FError>)
        ensures
            match r {
                Ok(request) => is_well_formed(instance_uuid@) && request == ApiRequest::StartFdu(
                    read(instance_uuid@),
                ),
                Err(e) => {
                    &&& !is_well_formed(instance_uuid@)
                    &&& e.kind == ErrorKind::MalformedInput
                    &&& e.message@ == uuid_parse_error(instance_uuid@)
                },
            },
    {
        Ok(ApiRequest::StartFdu(Self::parse_instance(instance_uuid)?))
    }

    /// The request to stop an instance; a malformed identifier fails the
    /// operation with the parser's message.
    pub fn stop_fdu(&self, instance_uuid: &str) -> (r: Result<ApiRequest, FError>)
        ensures
            match r {
                Ok(request) => is_well_formed(instance_uuid@) && request == ApiRequest::StopFdu(
                    read(instance_uuid@),
                ),
                Err(e) => {
                    &&& !is_well_formed(instance_uuid@)
                    &&& e.kind == ErrorKind::MalformedInput
                    &&& e.message@ == uuid_parse_error(instance_uuid@)
                },
            },
    {
        Ok(ApiRequest::StopFdu(Self::parse_instance(instance_uuid)?))
    }

    /// The request to clean an instance; a malformed identifier fails the
    /// operation with the parser's message.
    pub fn clean_fdu(&self, instance_uuid: &str) -> (r: Result<ApiRequest, FError>)
        ensures
            match r {
                Ok(request) => is_well_formed(instance_uuid@) && request == ApiRequest::CleanFdu(
                    read(instance_uuid@),
                ),
                Err(e) => {
                    &&& !is_well_formed(instance_uuid@)
                    &&& e.kind == ErrorKind::MalformedInput
                    &&& e.message@ == uuid_parse_error(instance_uuid@)
                },
            },
    {
        Ok(ApiRequest::CleanFdu(Self::parse_instance(instance_uuid)?))
    }

    /// The request to undefine an instance; a malformed identifier fails the
    /// operation with the parser's message.
    pub fn undefine_fdu(&self, instance_uuid: &str) -> (r: Result<ApiRequest, FError>)
        ensures
            match r {
                Ok(request) => is_well_formed(instance_uuid@) && request
                    == ApiRequest::UndefineFdu(read(instance_uuid@)),
                Err(e) => {
                    &&& !is_well_formed(instance_uuid@)
                    &&& e.kind == ErrorKind::MalformedInput
                    &&& e.message@ == uuid_parse_error(instance_uuid@)
                },
            },
    {
        Ok(ApiRequest::UndefineFdu(Self::parse_instance(instance_uuid)?))
    }

    /// The request to offload a descriptor; a malformed identifier fails the
    /// operation with the parser's message.
    pub fn offload_fdu(&self, fdu_uuid: &str) -> (r: Result<ApiRequest, FError>)
        ensures
            match r {
                Ok(request) => is_well_formed(fdu_uuid@) && request == ApiRequest::OffloadFdu(
                    read(fdu_uuid@),
                ),
                Err(e) => {
                    &&& !is_well_formed(fdu_uuid@)
                    &&& e.kind == ErrorKind::MalformedInput
                    &&& e.message@ == uuid_parse_error(fdu_uuid@)
                },
            },
    {
        Ok(ApiRequest::OffloadFdu(Self::parse_instance(fdu_uuid)?))
    }

    /// The result of an operation that answers with a record: the agent's
    /// record as it came, or its error as it came. An answer that is no
    /// record is a transport error.
    pub fn record(&self, outcome: Result<ApiReply, FError>) -> (r: Result<FduRecord, FError>)
        ensures
            match outcome {
                Ok(ApiReply::Record(record)) => r == Ok::<FduRecord, FError>(record),
                Ok(_) => {
                    &&& r is Err
                    &&& r.unwrap_err().kind == ErrorKind::Transport
                    &&& r.unwrap_err().message@ == unexpected_reply()
                },
                Err(e) => r == Err::<FduRecord, FError>(e),
            },
    {
        match outcome {
            Ok(ApiReply::Record(record)) => Ok(record),
            Ok(_) => Err(
                FError::new(
                    ErrorKind::Transport,
                    "the agent sent a reply of an unexpected kind".to_string(),
                ),
            ),
            Err(e) => Err(e),
        }
    }

    /// The result of an operation that answers with an identifier: the
    /// canonical text of the agent's identifier, or its error as it came. An
    /// answer that is no identifier is a transport error.
    pub fn identifier(&self, outcome: Result<ApiReply, FError>) -> (r: Result<String, FError>)
        ensures
            match outcome {
                Ok(ApiReply::Identifier(id)) => r is Ok && r.unwrap()@ == canonical_text(id.value),
                Ok(_) => {
                    &&& r is Err
                    &&& r.unwrap_err().kind == ErrorKind::Transport
                    &&& r.unwrap_err().message@ == unexpected_reply()
                },
                Err(e) => r == Err::<String, FError>(e),
            },
    {
        match outcome {
            Ok(ApiReply::Identifier(id)) => Ok(id.to_text()),
            Ok(_) => Err(
                FError::new(
                    ErrorKind::Transport,
                    "the agent sent a reply of an unexpected kind".to_string(),
                ),
            ),
            Err(e) => Err(e),
        }
    }
}

} // verus!
