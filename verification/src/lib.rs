//! The decisions behind the gateway's HTTP API: which routes it serves, who
//! may use them, what each handler asks of the gateway service and what it
//! answers once the service has replied.
//!
//! Nothing here waits or talks to the network. A handler that needs the
//! service hands out a command (such as [`projects::CreateProject`]); whoever
//! carries it out gives the outcome back and receives the next command or the
//! answer.

pub mod access;
pub mod admin;
pub mod error;
pub mod projects;
pub mod requests;
pub mod routes;
pub mod status;
pub mod trusted;
pub mod users;
