//! EXECUTE phase: what the executor records for a task.
//!
//! The executor model works on one [`TradeTask`] at a time; its answer is
//! recorded together with the tool calls that the task's action maps to.
use vstd::prelude::*;

use super::types::{ExecuteOutput, TradeAction, TradeTask};

verus! {

/// Confidence recorded for every execution, in units of 1 / `SCORE_SCALE`
/// (0.87).
pub const EXECUTE_CONFIDENCE: u32 = 8_700;

/// The tools that each action calls.
pub open spec fn tool_calls_spec(action: TradeAction) -> Seq<Seq<char>> {
    match action {
        TradeAction::AnalyseMarket => seq!["fetch_price_feed(SOL/USDC)"@],
        TradeAction::SelectRoute => seq!["query_raydium_pool()"@, "query_orca_pool()"@],
        TradeAction::ValidateSlippage => seq!["calculate_slippage(amount)"@],
        TradeAction::SimulateExecution => seq!["jupiter_swap_dry_run()"@],
    }
}

/// `calls` holds the given tool names, in order.
pub open spec fn names_are(calls: Seq<String>, names: Seq<Seq<char>>) -> bool {
    &&& calls.len() == names.len()
    &&& forall|i: int| 0 <= i < calls.len() ==> #[trigger] calls[i]@ == names[i]
}

/// The tool calls made for an action.
pub fn tool_calls_for(action: TradeAction) -> (r: Vec<String>)
    ensures
        names_are(r@, tool_calls_spec(action)),
{
    match action {
        TradeAction::AnalyseMarket => vec![String::from_str("fetch_price_feed(SOL/USDC)")],
        TradeAction::SelectRoute => vec![
            String::from_str("query_raydium_pool()"),
            String::from_str("query_orca_pool()"),
        ],
        TradeAction::ValidateSlippage => vec![String::from_str("calculate_slippage(amount)")],
        TradeAction::SimulateExecution => vec![String::from_str("jupiter_swap_dry_run()")],
    }
}

/// The record of one execution of `task`, given the executor's answer:
/// the answer is both the result and the reasoning, the confidence is
/// [`EXECUTE_CONFIDENCE`], and the tool calls are those of the task's
/// action.
pub fn execute_output(task: &TradeTask, response: String) -> (r: ExecuteOutput)
    ensures
        r.task_id@ == task.id@,
        r.result@ == response@,
        r.reasoning@ == response@,
        r.confidence == EXECUTE_CONFIDENCE,
        names_are(r.tool_calls@, tool_calls_spec(task.action)),
{
    let tool_calls = tool_calls_for(task.action);
    ExecuteOutput {
        task_id: task.id.clone(),
        result: response.clone(),
        confidence: EXECUTE_CONFIDENCE,
        reasoning: response,
        tool_calls,
    }
}

} // verus!
