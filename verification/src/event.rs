//! One tracing event as the instrumented program sends it, one per line.
use std::sync::Arc;
use vstd::prelude::*;

use crate::data::Level;

verus! {

/// The span an event was emitted in.
#[derive(Debug, Clone)]
pub struct SpanMeta {
    pub name: String,
}

/// A tracing event: when and where it was emitted, at which level, and
/// what it says. `fields` holds the event's key/value pairs; the sender
/// sends them as a map, so they come in the order that map was read in.
#[derive(Debug, Clone)]
pub struct DashboardEvent {
    /// Milliseconds since the Unix epoch.
    pub timestamp: u64,
    pub level: Level,
    pub target: String,
    pub message: String,
    pub span_id: Option<u64>,
    pub parent_span_id: Option<u64>,
    pub span_meta: Option<SpanMeta>,
    pub file: Option<String>,
    pub line: Option<u32>,
    pub fields: Vec<(String, String)>,
}

/// Another handle on the same shared event.
///
/// Trusted: calls `Arc::clone`, which std documents as making a new pointer
/// to the same allocation; the contract claims the new handle points to an
/// equal value.
#[verifier::external_body]
pub(crate) fn share<T>(a: &Arc<T>) -> (r: Arc<T>)
    ensures
        r == *a,
{
    Arc::clone(a)
}

} // verus!
