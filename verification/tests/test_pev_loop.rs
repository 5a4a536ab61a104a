//! Tests of the PEV loop: task breakdown, verdicts, execution records and
//! the loop's step function.

use polar_bear_rig_hft::pev::execute::{execute_output, tool_calls_for, EXECUTE_CONFIDENCE};
use polar_bear_rig_hft::pev::plan::{default_tasks_pub, plan_from_parsed};
use polar_bear_rig_hft::pev::stub::{
    run_offline, stub_output, stub_plan, stub_verdict, STUB_CONFIDENCE, STUB_SCORE,
};
use polar_bear_rig_hft::pev::text::{char_is_whitespace, clean_response_text};
use polar_bear_rig_hft::pev::types::{ExecuteOutput, TradeAction, TradeTask, SCORE_SCALE};
use polar_bear_rig_hft::pev::verify::{score_from_parsed, VerifyResponse, FALLBACK_SCORE, PASS_THRESHOLD};
use polar_bear_rig_hft::pev::{PevLoop, MAX_RETRIES};

const ONE_SOL: u64 = 1_000_000_000;

fn make_task() -> TradeTask {
    TradeTask {
        id: "T001".into(),
        pair: "SOL/USDC".into(),
        amount: ONE_SOL,
        action: TradeAction::AnalyseMarket,
        acceptance_criteria: vec!["Market data retrieved".into()],
    }
}

fn make_output(result: &str) -> ExecuteOutput {
    ExecuteOutput {
        task_id: "T001".into(),
        result: result.to_string(),
        confidence: 9_000, // 0.90
        reasoning: result.to_string(),
        tool_calls: vec!["fetch_price_feed(SOL/USDC)".into()],
    }
}

/// `default_tasks_pub` should produce exactly four tasks.
#[test]
fn test_plan_default_tasks_count() {
    let tasks = default_tasks_pub("SOL/USDC", ONE_SOL);
    assert_eq!(tasks.len(), 4, "expected 4 default tasks");
}

/// The pass threshold constant must equal `0.80`.
#[test]
fn test_verify_pass_threshold() {
    assert_eq!(
        PASS_THRESHOLD as f64 / SCORE_SCALE as f64,
        0.80,
        "PASS_THRESHOLD must be 0.80"
    );
}

/// [`ExecuteOutput`] correctly stores tool call names.
#[test]
fn test_execute_output_tool_calls() {
    let output = make_output("Market data retrieved: SOL price = $143.50");
    assert!(
        !output.tool_calls.is_empty(),
        "tool_calls must not be empty"
    );
    assert!(
        output.tool_calls[0].contains("fetch_price_feed"),
        "first tool call should reference fetch_price_feed"
    );
}

#[test]
fn test_default_tasks_contents() {
    let tasks = default_tasks_pub("SOL/USDC", 2_500_000_000);
    let ids: Vec<&str> = tasks.iter().map(|t| t.id.as_str()).collect();
    assert_eq!(ids, ["T001", "T002", "T003", "T004"]);
    let actions: Vec<TradeAction> = tasks.iter().map(|t| t.action).collect();
    assert_eq!(
        actions,
        [
            TradeAction::AnalyseMarket,
            TradeAction::SelectRoute,
            TradeAction::ValidateSlippage,
            TradeAction::SimulateExecution
        ]
    );
    for t in &tasks {
        assert_eq!(t.pair, "SOL/USDC");
        assert_eq!(t.amount, 2_500_000_000);
        assert_eq!(t.acceptance_criteria.len(), 1);
    }
    assert_eq!(tasks[0].acceptance_criteria[0], "Market data retrieved");
    assert_eq!(tasks[1].acceptance_criteria[0], "Best DEX venue selected");
    assert_eq!(tasks[2].acceptance_criteria[0], "Slippage within 0.5% tolerance");
    assert_eq!(tasks[3].acceptance_criteria[0], "Dry-run swap simulation logged");
}

#[test]
fn test_plan_from_parsed_prefers_model_plan() {
    let parsed = vec![make_task()];
    let plan = plan_from_parsed(Some(parsed), "ETH/USDC", 7);
    assert_eq!(plan.len(), 1);
    assert_eq!(plan[0].pair, "SOL/USDC");
    let fallback = plan_from_parsed(None, "ETH/USDC", 7);
    assert_eq!(fallback.len(), 4);
    assert_eq!(fallback[3].pair, "ETH/USDC");
    assert_eq!(fallback[3].amount, 7);
}

#[test]
fn test_tool_calls_per_action() {
    assert_eq!(tool_calls_for(TradeAction::AnalyseMarket), ["fetch_price_feed(SOL/USDC)"]);
    assert_eq!(
        tool_calls_for(TradeAction::SelectRoute),
        ["query_raydium_pool()", "query_orca_pool()"]
    );
    assert_eq!(tool_calls_for(TradeAction::ValidateSlippage), ["calculate_slippage(amount)"]);
    assert_eq!(tool_calls_for(TradeAction::SimulateExecution), ["jupiter_swap_dry_run()"]);
}

#[test]
fn test_execute_output_from_response() {
    let task = make_task();
    let out = execute_output(&task, "price fetched".to_string());
    assert_eq!(out.task_id, "T001");
    assert_eq!(out.result, "price fetched");
    assert_eq!(out.reasoning, "price fetched");
    assert_eq!(out.confidence, EXECUTE_CONFIDENCE);
    assert_eq!(out.confidence as f64 / SCORE_SCALE as f64, 0.87);
    assert_eq!(out.tool_calls, ["fetch_price_feed(SOL/USDC)"]);
}

#[test]
fn test_verdicts() {
    let pass = score_from_parsed(Some(VerifyResponse { score: 8_000, feedback: "ok".into() }));
    assert_eq!(pass, (8_000, "ok".to_string(), true));
    let fail = score_from_parsed(Some(VerifyResponse { score: 7_999, feedback: "no".into() }));
    assert_eq!(fail, (7_999, "no".to_string(), false));
    let fallback = score_from_parsed(None);
    assert_eq!(fallback, (FALLBACK_SCORE, "All criteria met".to_string(), true));
    assert_eq!(FALLBACK_SCORE as f64 / SCORE_SCALE as f64, 0.85);
}

#[test]
fn test_clean_response_strips_fences_and_whitespace() {
    assert_eq!(clean_response_text("  [1, 2]\n"), "[1, 2]");
    assert_eq!(clean_response_text("```json\n{\"score\": 0.9}\n```"), "{\"score\": 0.9}");
    assert_eq!(clean_response_text("```\n[]\n```  "), "[]");
    assert_eq!(clean_response_text("```json```json[]```"), "[]");
    assert_eq!(clean_response_text("\u{3000}[x]\u{2028}"), "[x]");
    assert_eq!(clean_response_text("   "), "");
    assert_eq!(clean_response_text("plain"), "plain");
}

#[test]
fn test_clean_response_agrees_with_std() {
    let samples = [
        "  ```json\n[{\"id\":\"T001\"}]\n```\n",
        "```\n```",
        "````",
        "\t```json ``` x ``` \u{a0}",
        "```JSON\n[]\n```",
        "résumé ```",
    ];
    for s in samples {
        let expected = s
            .trim()
            .trim_start_matches("```json")
            .trim_start_matches("```")
            .trim_end_matches("```")
            .trim();
        assert_eq!(clean_response_text(s), expected, "sample {:?}", s);
    }
}

#[test]
fn test_whitespace_matches_std() {
    for u in 0u32..0x3100 {
        if let Some(c) = char::from_u32(u) {
            assert_eq!(char_is_whitespace(c), c.is_whitespace(), "U+{:04X}", u);
        }
    }
}

/// Runs the loop over `tasks`, answering each verification with the next
/// score of `scores` (cycling).
fn run_loop(tasks: Vec<TradeTask>, scores: &[u32]) -> (polar_bear_rig_hft::pev::types::PEVResult, usize) {
    let mut lp = PevLoop::start(tasks);
    let mut rounds = 0usize;
    while let Some(i) = lp.pending_task() {
        let task = lp.task(i);
        let output = execute_output(task, format!("done {}", task.id));
        let score = scores[rounds % scores.len()];
        rounds += 1;
        let (score, feedback, passed) = score_from_parsed(Some(VerifyResponse {
            score,
            feedback: format!("round {}", rounds),
        }));
        lp.on_verified(output, score, feedback, passed);
    }
    (lp.finish(), rounds)
}

#[test]
fn test_pev_loop_all_pass() {
    let (r, rounds) = run_loop(default_tasks_pub("SOL/USDC", ONE_SOL), &[9_000]);
    assert_eq!(rounds, 4);
    assert_eq!(r.tasks.len(), 4);
    assert_eq!(r.outputs.len(), 4);
    assert_eq!(r.retries, 0);
    assert!(r.passed);
    assert_eq!(r.verify_score, 9_000);
    assert_eq!(r.feedback, "round 4");
    let ids: Vec<&str> = r.outputs.iter().map(|o| o.task_id.as_str()).collect();
    assert_eq!(ids, ["T001", "T002", "T003", "T004"]);
}

#[test]
fn test_pev_loop_always_failing() {
    let (r, rounds) = run_loop(default_tasks_pub("SOL/USDC", ONE_SOL), &[5_000]);
    let attempts = (MAX_RETRIES + 1) as usize;
    assert_eq!(rounds, 4 * attempts);
    assert_eq!(r.outputs.len(), 4);
    assert_eq!(r.retries, 4 * (MAX_RETRIES + 1));
    assert!(!r.passed);
    assert_eq!(r.verify_score, 5_000);
}

#[test]
fn test_pev_loop_retry_then_pass() {
    // Each task fails once, then passes.
    let (r, rounds) = run_loop(default_tasks_pub("SOL/USDC", ONE_SOL), &[1_000, 8_500]);
    assert_eq!(rounds, 8);
    assert_eq!(r.retries, 4);
    assert_eq!(r.outputs.len(), 4);
    assert!(r.passed);
    assert_eq!(r.feedback, "round 8");
}

#[test]
fn test_pev_loop_last_task_decides() {
    // The first three tasks pass at once; the last fails all its attempts.
    let scores = [9_000, 9_000, 9_000, 100, 200, 300];
    let (r, rounds) = run_loop(default_tasks_pub("SOL/USDC", ONE_SOL), &scores);
    assert_eq!(rounds, 6);
    assert_eq!(r.retries, 3);
    assert!(!r.passed);
    assert_eq!(r.verify_score, 300);
    assert_eq!(r.feedback, "round 6");
}

#[test]
fn test_pev_loop_without_tasks() {
    let (r, rounds) = run_loop(Vec::new(), &[9_000]);
    assert_eq!(rounds, 0);
    assert!(r.outputs.is_empty());
    assert_eq!(r.verify_score, 0);
    assert!(!r.passed);
    assert_eq!(r.feedback, "");
    assert_eq!(r.retries, 0);
}

#[test]
fn test_pev_loop_hands_feedback_to_retry() {
    let mut lp = PevLoop::start(default_tasks_pub("SOL/USDC", ONE_SOL));
    assert_eq!(lp.pending_task(), Some(0));
    assert!(lp.feedback_for_retry().is_none());
    let out = execute_output(lp.task(0), "first".to_string());
    lp.on_verified(out, 3_000, "missing price".to_string(), false);
    assert_eq!(lp.pending_task(), Some(0));
    assert_eq!(lp.feedback_for_retry().map(|f| f.as_str()), Some("missing price"));
    let out = execute_output(lp.task(0), "second".to_string());
    lp.on_verified(out, 9_000, "good".to_string(), true);
    assert_eq!(lp.pending_task(), Some(1));
    assert!(lp.feedback_for_retry().is_none());
}

#[test]
fn test_fenced_and_bare_json_clean_alike() {
    let body = "[{\"id\":\"T001\",\"amount\":1.0}]";
    let fenced = format!(" \n```json\n{}\n```\t\n", body);
    let padded = format!("\u{a0} {} \r\n", body);
    assert_eq!(clean_response_text(&fenced), body);
    assert_eq!(clean_response_text(&padded), body);
    assert_eq!(clean_response_text(body), body);
}

#[test]
fn test_pev_run_stub_mode_passes() {
    let r = run_offline("SOL/USDC", ONE_SOL);
    assert!(r.passed);
    assert_eq!(r.tasks.len(), 4);
    assert_eq!(r.outputs.len(), 4);
    assert!(r.verify_score >= PASS_THRESHOLD);
    assert_eq!(r.verify_score, STUB_SCORE);
    assert_eq!(r.retries, 0);
    for (t, o) in r.tasks.iter().zip(r.outputs.iter()) {
        assert_eq!(o.task_id, t.id);
    }
}

#[test]
fn test_plan_decompose_stub_mode() {
    let tasks = stub_plan("SOL/USDC", ONE_SOL);
    assert_eq!(tasks.len(), 4);
    assert!(tasks.iter().all(|t| t.amount == ONE_SOL && t.pair == "SOL/USDC"));
}

#[test]
fn test_verify_score_stub_mode() {
    let (score, feedback, passed) = stub_verdict();
    assert!(score >= PASS_THRESHOLD);
    assert_eq!(score as f64 / SCORE_SCALE as f64, 0.90);
    assert!(feedback.contains("stub"));
    assert!(feedback.contains("all criteria assumed met"));
    assert!(passed);
}

#[test]
fn test_execute_stub_output() {
    let task = make_task();
    let o = stub_output(&task);
    assert_eq!(o.task_id, "T001");
    assert_eq!(o.confidence, STUB_CONFIDENCE);
    assert_eq!(o.confidence as f64 / SCORE_SCALE as f64, 0.90);
    assert_eq!(o.tool_calls, ["fetch_price_feed(SOL/USDC)"]);
    assert_eq!(o.result, "stub: executed offline");
}

#[test]
fn test_fenced_padded_json_cleans_to_trimmed_json() {
    let fenced = "\n```json\n  [1, 2]\t\n```  ";
    assert_eq!(clean_response_text(fenced), "[1, 2]");
    assert_eq!(clean_response_text("  \n  [1, 2]\t\n  "), "[1, 2]");
}
