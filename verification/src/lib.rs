//! Orchestration of fog deployable units.
//!
//! - [`identifier`]: unique identifiers and their text forms.
//! - [`error`]: the errors every operation reports.
//! - [`im`]: descriptors, deployment records, plugin kinds.
//! - [`lifecycle`]: the operations a record admits and where they lead.
//! - [`api`]: the lifecycle client, which makes the requests to an agent.
//! - [`clients`]: the clients of an agent's plugin interface and of the
//!   node's plugins.
//! - [`agent`]: an agent's books and the rules by which requests change
//!   them.
//! - [`plugins`]: the bridge that serves a hypervisor plugin.
//! - [`session`]: what a session with the transport is opened with.
//!
//! Nothing here talks to the network or waits. An operation that needs the
//! outside says what is to be done and takes in what came of it.

pub mod agent;
pub mod api;
pub mod clients;
pub mod error;
pub mod identifier;
pub mod im;
pub mod lifecycle;
pub mod plugins;
pub mod session;
