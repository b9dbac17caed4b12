//! Webhooks, distributed and run on a fleet of hosts.
//!
//! A signed webhook arrives at the distributor, which makes a message of it and
//! sends that to the queue of every host. On each host an agent takes the message
//! from the queue, holds it against the host's allowlist of actions, and runs the
//! mapped command.
//!
//! This crate holds the decisions of both: which requests are dispatched
//! ([`ingress`], [`signature`], [`request`]), what a message may make an agent run
//! ([`action`], [`plan`], [`command`]), and what becomes of the message
//! ([`delivery`]). It does no I/O. Where outside work stands between two
//! decisions, the first hands out what to do, and the second goes on with what
//! came of it.

pub mod action;
pub mod agent;
pub mod agent_laws;
pub mod command;
pub mod delivery;
pub mod delivery_laws;
pub mod fault;
pub mod ingress;
pub mod ingress_laws;
pub mod message;
pub mod outcome_laws;
pub mod plan;
pub mod plan_laws;
pub mod reply_laws;
pub mod request;
pub mod request_laws;
pub mod schema_laws;
pub mod signature;
pub mod stamp;
pub mod text;
pub mod text_laws;
pub mod text_map;
pub mod timeout;
pub mod view_laws;

pub use crate::action::{
    is_git_sha, ActionConfig, ArgSpec, ExecPlan, PlanError, ShaCheck,
};
pub use crate::message::{Envelope, NotifyEvent, NotifyMode};
