//! Offline stub mode of the PEV phases.
//!
//! Without an API key (or with `SKIP_LLM` / `--skip-llm`), no model is
//! called: the plan is the default breakdown, every execution returns a
//! fixed output with confidence 0.90, and every verification scores 0.90
//! with the feedback "stub: all criteria assumed met".
use vstd::prelude::*;

use super::execute::{names_are, tool_calls_for, tool_calls_spec};
use super::plan::{default_tasks, is_default_plan};
use super::types::{ExecuteOutput, PEVResult, TradeTask};
use super::verify::{passes, PASS_THRESHOLD};
use super::{counters_done, PevLoop};

verus! {

/// Confidence of a stub execution (0.90).
pub const STUB_CONFIDENCE: u32 = 9_000;

/// Score of a stub verification (0.90).
pub const STUB_SCORE: u32 = 9_000;

/// The fixed result text of a stub execution.
pub open spec fn stub_result() -> Seq<char> {
    "stub: executed offline"@
}

/// The feedback of a stub verification.
pub open spec fn stub_feedback() -> Seq<char> {
    "stub: all criteria assumed met"@
}

/// PLAN stub: the default four-task breakdown.
pub fn stub_plan(pair: &str, amount: u64) -> (r: Vec<TradeTask>)
    ensures
        is_default_plan(r@, pair@, amount),
{
    default_tasks(pair, amount)
}

/// EXECUTE stub: the fixed output for `task`, with confidence
/// [`STUB_CONFIDENCE`] and the tool calls of the task's action.
pub fn stub_output(task: &TradeTask) -> (r: ExecuteOutput)
    ensures
        r.task_id@ == task.id@,
        r.result@ == stub_result(),
        r.reasoning@ == stub_result(),
        r.confidence == STUB_CONFIDENCE,
        names_are(r.tool_calls@, tool_calls_spec(task.action)),
{
    ExecuteOutput {
        task_id: task.id.clone(),
        result: String::from_str("stub: executed offline"),
        confidence: STUB_CONFIDENCE,
        reasoning: String::from_str("stub: executed offline"),
        tool_calls: tool_calls_for(task.action),
    }
}

/// VERIFY stub: the verdict `(score, feedback, passed)`: score
/// [`STUB_SCORE`], the stub feedback, passed.
pub fn stub_verdict() -> (r: (u32, String, bool))
    ensures
        r.0 == STUB_SCORE,
        r.1@ == stub_feedback(),
        r.2 == passes(r.0),
        r.2,
{
    (STUB_SCORE, String::from_str("stub: all criteria assumed met"), STUB_SCORE >= PASS_THRESHOLD)
}

/// The whole PEV loop in stub mode, for a trade of `amount` lamports on
/// `pair`: the default plan, each task executed once with its stub output,
/// every verification passing at [`STUB_SCORE`], no retry.
pub fn run_offline(pair: &str, amount: u64) -> (r: PEVResult)
    ensures
        is_default_plan(r.tasks@, pair@, amount),
        r.outputs@.len() == 4,
        forall|i: int|
            0 <= i < 4 ==> {
                &&& (#[trigger] r.outputs@[i]).task_id@ == r.tasks@[i].id@
                &&& r.outputs@[i].result@ == stub_result()
                &&& r.outputs@[i].confidence == STUB_CONFIDENCE
            },
        r.verify_score == STUB_SCORE,
        r.passed,
        r.feedback@ == stub_feedback(),
        r.retries == 0,
{
    let tasks = stub_plan(pair, amount);
    let ghost plan = tasks@;
    let mut pev = PevLoop::start(tasks);
    loop
        invariant
            pev.wf(),
            pev.tasks() == plan,
            is_default_plan(plan, pair@, amount),
            pev.counters().task_count == 4,
            pev.counters().retries == 0,
            pev.counters().total_retries == 0,
            pev.counters().current == pev.outputs().len(),
            pev.counters().current == 0 ==> pev.final_score() == 0,
            pev.counters().current > 0 ==> pev.final_score() == STUB_SCORE
                && pev.final_feedback() == stub_feedback(),
            forall|j: int|
                0 <= j < pev.outputs().len() ==> (#[trigger] pev.outputs()[j]).result@
                    == stub_result() && pev.outputs()[j].confidence == STUB_CONFIDENCE,
        ensures
            counters_done(pev.counters()),
        decreases 4 - pev.counters().current,
    {
        let i = match pev.pending_task() {
            Some(i) => i,
            None => {
                break;
            },
        };
        let output = stub_output(pev.task(i));
        let (score, feedback, passed) = stub_verdict();
        let ghost before = pev.outputs();
        pev.on_verified(output, score, feedback, passed);
        assert(pev.outputs() == before.push(output));
    }
    assert(counters_done(pev.counters()));
    pev.finish()
}

} // verus!
