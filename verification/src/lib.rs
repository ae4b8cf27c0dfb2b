//! Decision logic for rebuilding and activating a declarative system
//! configuration: the commands to run, in which order, with which
//! privileges, and what to do when one of them fails.
//!
//! The library never touches the machine. It is driven as a state machine:
//! each [`workflow::Action`] it hands out is carried out by the caller, who
//! reports back with an [`workflow::Event`].

pub mod activation;
pub mod building;
pub mod command;
pub mod consistency;
pub mod dry_run;
pub mod error;
pub mod laws;
pub mod model;
pub mod privilege;
pub mod request;
pub mod specialisation;
pub mod text;
pub mod update;
pub mod version;
pub mod workflow;
