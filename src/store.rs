use vstd::prelude::*;
use vstd::string::StringExecFns;

verus! {

/// The two vector fields under which the store keeps each face's embedding.
pub const EMBEDDING_FIELD: &'static str = "embedding";
pub const DEFAULT_FIELD: &'static str = "default";

/// How many times startup asks the store to accept the embedder configuration.
pub const MAX_SETUP_ATTEMPTS: u8 = 30;

/// Pause between two attempts at configuring the store, in milliseconds.
pub const SETUP_RETRY_DELAY_MS: u64 = 1000;

/// What startup does after one attempt at configuring the store's vector fields.
#[derive(Debug, Clone, Copy, PartialEq, Eq, Structural)]
pub enum SetupStep {
    /// The store accepted the configuration.
    Done,
    /// Wait this many milliseconds, then make attempt `next`.
    RetryAfter { delay_ms: u64, next: u8 },
    /// The store refused every attempt; startup goes on without it.
    GiveUp,
}

/// The step after attempt `attempt` (counted from 1) was `accepted` or not.
pub fn next_setup_step(attempt: u8, accepted: bool) -> (r: SetupStep)
    requires
        1 <= attempt <= MAX_SETUP_ATTEMPTS,
    ensures
        accepted ==> r == SetupStep::Done,
        !accepted && attempt < MAX_SETUP_ATTEMPTS ==> r == (SetupStep::RetryAfter {
            delay_ms: SETUP_RETRY_DELAY_MS,
            next: (attempt + 1) as u8,
        }),
        !accepted && attempt == MAX_SETUP_ATTEMPTS ==> r == SetupStep::GiveUp,
{
    if accepted {
        SetupStep::Done
    } else if attempt < MAX_SETUP_ATTEMPTS {
        SetupStep::RetryAfter { delay_ms: SETUP_RETRY_DELAY_MS, next: attempt + 1 }
    } else {
        SetupStep::GiveUp
    }
}

/// The store's access key: an empty key means that the store is open, and none is sent.
pub fn access_key(key: &str) -> (r: Option<String>)
    ensures
        r is None <==> key@.len() == 0,
        r matches Some(k) ==> k@ == key@,
{
    if key.is_empty() {
        None
    } else {
        Some(String::from_str(key))
    }
}

} // verus!
