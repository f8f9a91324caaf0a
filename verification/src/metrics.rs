//! Merging per-call token usage into a session's accumulated counters.
//! Absence of a count means "unknown" and is preserved, never coerced to
//! zero; the persist step itself belongs to the external session store.

use vstd::prelude::*;

use crate::types::{Session, SessionConfig, Usage};

verus! {

/// The merge rule for one counter: both present sum, one present passes
/// through, both absent stays absent.
pub open spec fn spec_accumulate(a: Option<i32>, b: Option<i32>) -> Option<int> {
    match (a, b) {
        (Some(x), Some(y)) => Some(x + y),
        (Some(x), None) => Some(x as int),
        (None, Some(y)) => Some(y as int),
        (None, None) => None,
    }
}

/// Both counters present means their sum must fit the counter type.
pub open spec fn spec_accumulate_fits(a: Option<i32>, b: Option<i32>) -> bool {
    match (a, b) {
        (Some(x), Some(y)) => i32::MIN <= x + y <= i32::MAX,
        _ => true,
    }
}

/// Combines an accumulated counter with a new sample.
pub fn accumulate(a: Option<i32>, b: Option<i32>) -> (r: Option<i32>)
    requires
        spec_accumulate_fits(a, b),
    ensures
        match r {
            Some(v) => spec_accumulate(a, b) == Some(v as int),
            None => spec_accumulate(a, b) is None,
        },
{
    match (a, b) {
        (Some(x), Some(y)) => Some(x + y),
        (Some(x), None) => Some(x),
        (None, Some(y)) => Some(y),
        (None, None) => None,
    }
}

/// What one reconciliation writes back to the store: the per-call counts as
/// sampled, the recombined accumulated counts, and the schedule tag of the
/// session the call belongs to.
pub struct SessionUpdate {
    pub schedule_id: Option<String>,
    pub total_tokens: Option<i32>,
    pub input_tokens: Option<i32>,
    pub output_tokens: Option<i32>,
    pub accumulated_total_tokens: Option<i32>,
    pub accumulated_input_tokens: Option<i32>,
    pub accumulated_output_tokens: Option<i32>,
}

/// Whether an update field matches the merge rule applied to an accumulated
/// counter and a sample.
pub open spec fn spec_matches_accumulate(r: Option<i32>, a: Option<i32>, b: Option<i32>) -> bool {
    match r {
        Some(v) => spec_accumulate(a, b) == Some(v as int),
        None => spec_accumulate(a, b) is None,
    }
}

/// Builds the record one metrics reconciliation persists: per-call counts
/// are passed through unchanged, each accumulated counter is merged with the
/// call's sample, and the schedule id is carried from the session config.
pub fn build_session_update(session: &Session, config: &SessionConfig, usage: &Usage) -> (u:
    SessionUpdate)
    requires
        spec_accumulate_fits(session.accumulated_total_tokens, usage.total_tokens),
        spec_accumulate_fits(session.accumulated_input_tokens, usage.input_tokens),
        spec_accumulate_fits(session.accumulated_output_tokens, usage.output_tokens),
    ensures
        u.schedule_id == config.schedule_id,
        u.total_tokens == usage.total_tokens,
        u.input_tokens == usage.input_tokens,
        u.output_tokens == usage.output_tokens,
        spec_matches_accumulate(
            u.accumulated_total_tokens,
            session.accumulated_total_tokens,
            usage.total_tokens,
        ),
        spec_matches_accumulate(
            u.accumulated_input_tokens,
            session.accumulated_input_tokens,
            usage.input_tokens,
        ),
        spec_matches_accumulate(
            u.accumulated_output_tokens,
            session.accumulated_output_tokens,
            usage.output_tokens,
        ),
{
    let schedule_id = match &config.schedule_id {
        Some(s) => Some(s.clone()),
        None => None,
    };
    SessionUpdate {
        schedule_id,
        total_tokens: usage.total_tokens,
        input_tokens: usage.input_tokens,
        output_tokens: usage.output_tokens,
        accumulated_total_tokens: accumulate(session.accumulated_total_tokens, usage.total_tokens),
        accumulated_input_tokens: accumulate(session.accumulated_input_tokens, usage.input_tokens),
        accumulated_output_tokens: accumulate(
            session.accumulated_output_tokens,
            usage.output_tokens,
        ),
    }
}

/// The merge rule is commutative in the two counters it combines.
pub proof fn lemma_accumulate_commutes(a: Option<i32>, b: Option<i32>)
    ensures
        spec_accumulate(a, b) == spec_accumulate(b, a),
{
}

} // verus!
