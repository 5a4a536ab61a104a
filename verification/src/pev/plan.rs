//! PLAN phase: the canonical trade breakdown.
//!
//! The planner model is asked for a JSON array of [`TradeTask`]s; when its
//! cleaned answer does not parse, the plan falls back to [`default_tasks`],
//! so the loop always has a plan.
use vstd::prelude::*;

use super::types::{TradeAction, TradeTask};

verus! {

/// `t` is a task with the given fields and a single acceptance criterion.
pub open spec fn is_task(
    t: TradeTask,
    id: Seq<char>,
    pair: Seq<char>,
    amount: u64,
    action: TradeAction,
    criterion: Seq<char>,
) -> bool {
    &&& t.id@ == id
    &&& t.pair@ == pair
    &&& t.amount == amount
    &&& t.action == action
    &&& t.acceptance_criteria@.len() == 1
    &&& t.acceptance_criteria@[0]@ == criterion
}

/// The canonical breakdown of a trade of `amount` lamports on `pair`:
/// analyse the market, select a route, validate slippage, simulate the
/// execution.
pub open spec fn is_default_plan(tasks: Seq<TradeTask>, pair: Seq<char>, amount: u64) -> bool {
    &&& tasks.len() == 4
    &&& is_task(tasks[0], "T001"@, pair, amount, TradeAction::AnalyseMarket, "Market data retrieved"@)
    &&& is_task(tasks[1], "T002"@, pair, amount, TradeAction::SelectRoute, "Best DEX venue selected"@)
    &&& is_task(
        tasks[2],
        "T003"@,
        pair,
        amount,
        TradeAction::ValidateSlippage,
        "Slippage within 0.5% tolerance"@,
    )
    &&& is_task(
        tasks[3],
        "T004"@,
        pair,
        amount,
        TradeAction::SimulateExecution,
        "Dry-run swap simulation logged"@,
    )
}

fn make_task(id: &str, pair: &str, amount: u64, action: TradeAction, criterion: &str) -> (t:
    TradeTask)
    ensures
        is_task(t, id@, pair@, amount, action, criterion@),
{
    TradeTask {
        id: String::from_str(id),
        pair: String::from_str(pair),
        amount,
        action,
        acceptance_criteria: vec![String::from_str(criterion)],
    }
}

/// The deterministic four-task breakdown of a trade: the fallback plan.
pub fn default_tasks(pair: &str, amount: u64) -> (r: Vec<TradeTask>)
    ensures
        is_default_plan(r@, pair@, amount),
{
    vec![
        make_task("T001", pair, amount, TradeAction::AnalyseMarket, "Market data retrieved"),
        make_task("T002", pair, amount, TradeAction::SelectRoute, "Best DEX venue selected"),
        make_task(
            "T003",
            pair,
            amount,
            TradeAction::ValidateSlippage,
            "Slippage within 0.5% tolerance",
        ),
        make_task(
            "T004",
            pair,
            amount,
            TradeAction::SimulateExecution,
            "Dry-run swap simulation logged",
        ),
    ]
}

/// Public name of [`default_tasks`], for callers that plan without a model.
pub fn default_tasks_pub(pair: &str, amount: u64) -> (r: Vec<TradeTask>)
    ensures
        is_default_plan(r@, pair@, amount),
{
    default_tasks(pair, amount)
}

/// The plan from the planner's parsed answer: the parsed tasks when the
/// answer parsed, else the default breakdown.
pub fn plan_from_parsed(parsed: Option<Vec<TradeTask>>, pair: &str, amount: u64) -> (r: Vec<
    TradeTask,
>)
    ensures
        parsed matches Some(v) ==> r@ == v@,
        parsed is None ==> is_default_plan(r@, pair@, amount),
{
    match parsed {
        Some(v) => v,
        None => default_tasks(pair, amount),
    }
}

} // verus!
