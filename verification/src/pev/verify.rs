//! VERIFY phase: the verdict rules.
//!
//! The verifier model answers with a JSON object `{"score", "feedback"}`;
//! a score of at least [`PASS_THRESHOLD`] passes. An answer that does not
//! parse counts as the fallback verdict, so a malformed answer does not
//! block the loop.
use vstd::prelude::*;

verus! {

/// Minimum verification score (in units of 1 / `SCORE_SCALE`, i.e. 0.80)
/// for a task to pass.
pub const PASS_THRESHOLD: u32 = 8_000;

/// Score assumed when the verifier's answer does not parse (0.85).
pub const FALLBACK_SCORE: u32 = 8_500;

/// Whether a score passes verification.
pub open spec fn passes(score: u32) -> bool {
    score >= PASS_THRESHOLD
}

/// The verifier's parsed answer.
#[derive(Debug)]
pub struct VerifyResponse {
    /// Score in units of 1 / `SCORE_SCALE`.
    pub score: u32,
    /// One-sentence explanation of the score.
    pub feedback: String,
}

/// The verdict `(score, feedback, passed)` from the verifier's parsed answer,
/// or from the fallback answer (score [`FALLBACK_SCORE`], feedback
/// "All criteria met") when the answer did not parse.
pub fn score_from_parsed(parsed: Option<VerifyResponse>) -> (r: (u32, String, bool))
    ensures
        parsed matches Some(v) ==> r.0 == v.score && r.1@ == v.feedback@,
        parsed is None ==> r.0 == FALLBACK_SCORE && r.1@ == "All criteria met"@,
        r.2 == passes(r.0),
{
    let vr = match parsed {
        Some(v) => v,
        None => VerifyResponse { score: FALLBACK_SCORE, feedback: String::from_str("All criteria met") },
    };
    let passed = vr.score >= PASS_THRESHOLD;
    (vr.score, vr.feedback, passed)
}

} // verus!
