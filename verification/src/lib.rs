//! A transport-agnostic message-broker client core: idempotent resource
//! provisioning, partitioned publishing, and cursor-based poll-consume with
//! backoff, verified against an abstract model of a partition log.

use vstd::prelude::*;

pub mod codec;
pub mod config;
pub mod consumer;
pub mod errors;
pub mod json;
pub mod provision;
pub mod publisher;
pub mod session;
