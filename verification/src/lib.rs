//! Verified core of an HTTP event-ingestion service: the event model and its
//! validation rules, the error taxonomy with its status-code mapping and
//! response bodies, the bearer-token auth gate, the ingestion pipeline
//! decisions, the bulk-insert statement builder, and the health checks.

pub mod auth;
pub mod config;
pub mod error;
pub mod event;
pub mod health;
pub mod ingestion;
pub mod render;

use vstd::prelude::*;

verus! {

/// HTTP status for a successful ingestion: 202 Accepted.
pub const ACCEPTED_STATUS: u16 = 202;

} // verus!
