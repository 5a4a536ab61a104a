//! Data exchanged between the phases of the PEV loop.
use vstd::prelude::*;

verus! {

/// Verification scores and confidences are fixed-point values in units of
/// 1 / `SCORE_SCALE`: `SCORE_SCALE` stands for a score of 1.00.
pub const SCORE_SCALE: u32 = 10_000;

/// The four kinds of atomic step of a trade.
#[derive(Debug, Clone, Copy, PartialEq, Eq, Structural)]
pub enum TradeAction {
    AnalyseMarket,
    SelectRoute,
    ValidateSlippage,
    SimulateExecution,
}

/// A single atomic trade task produced by the Plan phase.
#[derive(Debug, Clone)]
pub struct TradeTask {
    pub id: String,
    pub pair: String,
    /// Base-token amount in lamports (10⁻⁹ of a token).
    pub amount: u64,
    pub action: TradeAction,
    pub acceptance_criteria: Vec<String>,
}

/// Output produced by the Execute phase.
#[derive(Debug, Clone)]
pub struct ExecuteOutput {
    pub task_id: String,
    pub result: String,
    /// Confidence in units of 1 / [`SCORE_SCALE`].
    pub confidence: u32,
    pub reasoning: String,
    pub tool_calls: Vec<String>,
}

/// Final result of a full PEV loop.
#[derive(Debug, Clone)]
pub struct PEVResult {
    pub tasks: Vec<TradeTask>,
    pub outputs: Vec<ExecuteOutput>,
    /// Score of the last verification that settled a task, in units of
    /// 1 / [`SCORE_SCALE`]; 0 when there was no task.
    pub verify_score: u32,
    pub passed: bool,
    pub feedback: String,
    pub retries: u32,
}

} // verus!
