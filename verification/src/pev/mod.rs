//! PEV loop orchestration: Plan → Execute → Verify, with at most
//! [`MAX_RETRIES`] retries of a task whose verification fails.
//!
//! The loop alternates model calls (execute a task, score its output) with
//! decisions. The decisions live here as a step function: [`PevLoop`] is the
//! loop's state, [`PevLoop::pending_task`] the next action (which task to
//! execute, or none when the loop is over), [`PevLoop::on_verified`] the
//! transition on a verification event and [`PevLoop::finish`] the result.
//! After a failed verification, the verifier's feedback is handed to the
//! task's next attempt ([`PevLoop::feedback_for_retry`]).
pub mod execute;
pub mod plan;
pub mod stub;
pub mod text;
pub mod types;
pub mod verify;

use vstd::prelude::*;

use types::{ExecuteOutput, PEVResult, TradeTask};
use verify::{passes, PASS_THRESHOLD};

verus! {

/// Maximum number of retries of one task after a failed verification.
pub const MAX_RETRIES: u32 = 2;

/// The counters of the loop, as mathematical values.
pub struct PevCounters {
    /// Number of tasks planned.
    pub task_count: nat,
    /// Index of the task under execution; `task_count` once all are settled.
    pub current: nat,
    /// Failed verifications of the current task so far.
    pub retries: nat,
    /// Failed verifications of all tasks so far.
    pub total_retries: nat,
}

/// The counters are consistent: the current task exists or the loop is
/// over, and the current task has not used up more than its retries.
pub open spec fn counters_wf(c: PevCounters) -> bool {
    &&& c.current <= c.task_count
    &&& c.retries <= MAX_RETRIES
    &&& c.current == c.task_count ==> c.retries == 0
}

/// All tasks are settled.
pub open spec fn counters_done(c: PevCounters) -> bool {
    c.current == c.task_count
}

/// The counters after the verifier's verdict on the current task: success
/// settles the task; failure is a retry, unless the task has already been
/// retried [`MAX_RETRIES`] times, in which case the task is settled with its
/// last output.
pub open spec fn advance(c: PevCounters, passed: bool) -> PevCounters {
    if passed {
        PevCounters { current: c.current + 1, retries: 0, ..c }
    } else if c.retries + 1 > MAX_RETRIES {
        PevCounters { current: c.current + 1, retries: 0, total_retries: c.total_retries + 1, ..c }
    } else {
        PevCounters { retries: c.retries + 1, total_retries: c.total_retries + 1, ..c }
    }
}

/// Upper bound on the verifications still to come: each unsettled task
/// takes at most `MAX_RETRIES + 1` attempts, minus those the current task
/// has already used.
pub open spec fn attempts_left(c: PevCounters) -> int {
    (c.task_count - c.current) * (MAX_RETRIES + 1) - c.retries
}

/// The counters after a sequence of verdicts, stopping when all tasks are
/// settled.
pub open spec fn run_verdicts(c: PevCounters, verdicts: Seq<bool>) -> PevCounters
    decreases verdicts.len(),
{
    if verdicts.len() == 0 || counters_done(c) {
        c
    } else {
        run_verdicts(advance(c, verdicts[0]), verdicts.drop_first())
    }
}

/// Number of failed verdicts in a sequence.
pub open spec fn count_failures(verdicts: Seq<bool>) -> nat
    decreases verdicts.len(),
{
    if verdicts.len() == 0 {
        0
    } else {
        count_failures(verdicts.drop_first()) + if verdicts[0] {
            0nat
        } else {
            1nat
        }
    }
}

/// Every verification event of an unfinished loop keeps the counters
/// consistent and uses up one of the remaining attempts.
pub proof fn lemma_advance_spends_an_attempt(c: PevCounters, passed: bool)
    requires
        counters_wf(c),
        !counters_done(c),
    ensures
        counters_wf(advance(c, passed)),
        0 <= attempts_left(advance(c, passed)) < attempts_left(c),
{
    let n = c.task_count - c.current;
    assert(n >= 1);
    assert(attempts_left(c) == n * 3 - c.retries);
    let d = advance(c, passed);
    if d.current == c.current + 1 {
        assert(attempts_left(d) == (n - 1) * 3) by (nonlinear_arith)
            requires
                attempts_left(d) == (d.task_count - d.current) * 3 - d.retries,
                d.task_count - d.current == n - 1,
                d.retries == 0,
        ;
        assert((n - 1) * 3 < n * 3 - c.retries) by (nonlinear_arith)
            requires
                c.retries <= 2,
        ;
        assert((n - 1) * 3 >= 0) by (nonlinear_arith)
            requires
                n >= 1,
        ;
    } else {
        assert(attempts_left(d) == n * 3 - c.retries - 1);
        assert(n * 3 - c.retries - 1 >= 0) by (nonlinear_arith)
            requires
                n >= 1,
                c.retries + 1 <= 2,
        ;
    }
}

/// The loop ends: from consistent counters, any sequence of at least
/// `attempts_left` verdicts settles every task, whatever the verdicts are.
/// From the start of a loop over `n` tasks that is at most
/// `(MAX_RETRIES + 1) * n` verifications.
pub proof fn lemma_loop_terminates(c: PevCounters, verdicts: Seq<bool>)
    requires
        counters_wf(c),
        verdicts.len() >= attempts_left(c),
    ensures
        counters_done(run_verdicts(c, verdicts)),
        counters_wf(run_verdicts(c, verdicts)),
    decreases verdicts.len(),
{
    if counters_done(c) {
    } else {
        lemma_advance_spends_an_attempt(c, verdicts[0]);
        lemma_loop_terminates(advance(c, verdicts[0]), verdicts.drop_first());
    }
}

/// A fresh loop over `n` tasks has `(MAX_RETRIES + 1) * n` attempts.
pub proof fn lemma_start_attempts(n: nat)
    ensures
        attempts_left(PevCounters { task_count: n, current: 0, retries: 0, total_retries: 0 })
            == (MAX_RETRIES + 1) * n,
{
    assert((n - 0) * (MAX_RETRIES + 1) - 0 == (MAX_RETRIES + 1) * n) by (nonlinear_arith);
}

/// When every verification passes, each task is executed once, the loop
/// ends after exactly one verdict per remaining task, and no retry is
/// counted.
pub proof fn lemma_all_pass(c: PevCounters, verdicts: Seq<bool>)
    requires
        counters_wf(c),
        verdicts.len() == c.task_count - c.current,
        forall|i: int| 0 <= i < verdicts.len() ==> verdicts[i],
    ensures
        counters_done(run_verdicts(c, verdicts)),
        run_verdicts(c, verdicts).total_retries == c.total_retries,
    decreases verdicts.len(),
{
    if verdicts.len() == 0 {
    } else {
        let d = advance(c, verdicts[0]);
        assert(verdicts[0]);
        let rest = verdicts.drop_first();
        assert forall|i: int| 0 <= i < rest.len() implies rest[i] by {
            assert(rest[i] == verdicts[i + 1]);
        }
        lemma_all_pass(d, rest);
    }
}

/// A task that fails verification `MAX_RETRIES + 1` times in a row is
/// settled (the loop moves on to the next task) and each failure counts as
/// a retry.
pub proof fn lemma_failing_task_is_settled(c: PevCounters)
    requires
        counters_wf(c),
        !counters_done(c),
        c.retries == 0,
    ensures
        run_verdicts(c, Seq::new((MAX_RETRIES + 1) as nat, |_i: int| false)) == (PevCounters {
            current: c.current + 1,
            retries: 0,
            total_retries: (c.total_retries + MAX_RETRIES + 1) as nat,
            ..c
        }),
{
    let v = Seq::new((MAX_RETRIES + 1) as nat, |_i: int| false);
    let c1 = advance(c, false);
    let c2 = advance(c1, false);
    let c3 = advance(c2, false);
    assert(v.drop_first() =~= seq![false, false]);
    assert(v.drop_first().drop_first() =~= seq![false]);
    assert(v.drop_first().drop_first().drop_first() =~= Seq::<bool>::empty());
    assert(run_verdicts(c3, Seq::<bool>::empty()) == c3);
    assert(run_verdicts(c2, seq![false]) == run_verdicts(c3, Seq::<bool>::empty()));
    assert(run_verdicts(c1, seq![false, false]) == run_verdicts(c2, seq![false]));
}

/// Retries are only counted for failed verdicts: the retry total grows by
/// at most the number of failures.
pub proof fn lemma_retries_count_failures(c: PevCounters, verdicts: Seq<bool>)
    requires
        counters_wf(c),
    ensures
        c.total_retries <= run_verdicts(c, verdicts).total_retries,
        run_verdicts(c, verdicts).total_retries <= c.total_retries + count_failures(verdicts),
    decreases verdicts.len(),
{
    if verdicts.len() == 0 || counters_done(c) {
    } else {
        lemma_advance_spends_an_attempt(c, verdicts[0]);
        lemma_retries_count_failures(advance(c, verdicts[0]), verdicts.drop_first());
    }
}

/// Each kept output belongs to the planned task at the same position.
pub open spec fn outputs_match_tasks(outputs: Seq<ExecuteOutput>, tasks: Seq<TradeTask>) -> bool {
    &&& outputs.len() <= tasks.len()
    &&& forall|i: int| 0 <= i < outputs.len() ==> #[trigger] outputs[i].task_id@ == tasks[i].id@
}

/// State of one run of the PEV loop.
pub struct PevLoop {
    tasks: Vec<TradeTask>,
    outputs: Vec<ExecuteOutput>,
    current: usize,
    retries: u32,
    total_retries: u32,
    final_score: u32,
    final_feedback: String,
    retry_feedback: Option<String>,
}

impl PevLoop {
    /// The loop's internal consistency, established by [`PevLoop::start`]
    /// and kept by every transition.
    pub closed spec fn wf(self) -> bool {
        &&& counters_wf(self.counters())
        &&& self.outputs.len() == self.current
        &&& self.tasks.len() * (MAX_RETRIES + 1) <= u32::MAX
        &&& self.total_retries <= self.current * (MAX_RETRIES + 1) + self.retries
        &&& (self.retry_feedback is Some <==> self.retries > 0)
        &&& outputs_match_tasks(self.outputs@, self.tasks@)
    }

    /// The loop's counters.
    pub closed spec fn counters(self) -> PevCounters {
        PevCounters {
            task_count: self.tasks.len() as nat,
            current: self.current as nat,
            retries: self.retries as nat,
            total_retries: self.total_retries as nat,
        }
    }

    /// The planned tasks.
    pub closed spec fn tasks(self) -> Seq<TradeTask> {
        self.tasks@
    }

    /// The outputs of the settled tasks, in task order.
    pub closed spec fn outputs(self) -> Seq<ExecuteOutput> {
        self.outputs@
    }

    /// Score of the last verification that settled a task.
    pub closed spec fn final_score(self) -> u32 {
        self.final_score
    }

    /// Feedback of the last verification that settled a task.
    pub closed spec fn final_feedback(self) -> Seq<char> {
        self.final_feedback@
    }

    /// Feedback of the verifier's last rejection of the current task, to be
    /// given to its next attempt; `None` on a task's first attempt.
    pub closed spec fn retry_feedback(self) -> Option<Seq<char>> {
        match self.retry_feedback {
            Some(f) => Some(f@),
            None => None,
        }
    }

    /// Starts a loop over the planned tasks. The retry counter is a `u32`,
    /// so the number of tasks is bounded by what it can count.
    pub fn start(tasks: Vec<TradeTask>) -> (s: PevLoop)
        requires
            tasks.len() * (MAX_RETRIES + 1) <= u32::MAX,
        ensures
            s.wf(),
            s.tasks() == tasks@,
            s.counters() == (PevCounters {
                task_count: tasks.len() as nat,
                current: 0,
                retries: 0,
                total_retries: 0,
            }),
            s.outputs() == Seq::<ExecuteOutput>::empty(),
            s.final_score() == 0,
            s.final_feedback() == Seq::<char>::empty(),
            s.retry_feedback() is None,
    {
        PevLoop {
            tasks,
            outputs: Vec::new(),
            current: 0,
            retries: 0,
            total_retries: 0,
            final_score: 0,
            final_feedback: String::new(),
            retry_feedback: None,
        }
    }

    /// The next action: the index of the task to execute, or `None` when
    /// every task is settled.
    pub fn pending_task(&self) -> (r: Option<usize>)
        requires
            self.wf(),
        ensures
            counters_wf(self.counters()),
            counters_done(self.counters()) <==> r is None,
            r matches Some(i) ==> i == self.counters().current && i < self.tasks().len(),
    {
        if self.current < self.tasks.len() {
            Some(self.current)
        } else {
            None
        }
    }

    /// The verifier's feedback on the previous attempt of the current task,
    /// to be injected into its next attempt; `None` on a first attempt.
    pub fn feedback_for_retry(&self) -> (r: Option<&String>)
        requires
            self.wf(),
        ensures
            r is None <==> self.retry_feedback() is None,
            r matches Some(f) ==> self.retry_feedback() == Some(f@),
    {
        match &self.retry_feedback {
            Some(f) => Some(f),
            None => None,
        }
    }

    /// The planned task at index `i`.
    pub fn task(&self, i: usize) -> (t: &TradeTask)
        requires
            self.wf(),
            i < self.tasks().len(),
        ensures
            *t == self.tasks()[i as int],
    {
        &self.tasks[i]
    }

    /// The transition on a verification event for the current task: its
    /// execution `output` (whose task id is the current task's), the
    /// verifier's `score` and `feedback`, and the verdict `passed`, which is
    /// whether the score passes.
    pub fn on_verified(&mut self, output: ExecuteOutput, score: u32, feedback: String, passed: bool)
        requires
            old(self).wf(),
            !counters_done(old(self).counters()),
            output.task_id@ == old(self).tasks()[old(self).counters().current as int].id@,
            passed == passes(score),
        ensures
            final(self).wf(),
            final(self).counters() == advance(old(self).counters(), passed),
            final(self).tasks() == old(self).tasks(),
            final(self).counters().current == old(self).counters().current + 1 ==> {
                &&& final(self).outputs() == old(self).outputs().push(output)
                &&& final(self).final_score() == score
                &&& final(self).final_feedback() == feedback@
                &&& final(self).retry_feedback() is None
            },
            final(self).counters().current == old(self).counters().current ==> {
                &&& final(self).outputs() == old(self).outputs()
                &&& final(self).final_score() == old(self).final_score()
                &&& final(self).final_feedback() == old(self).final_feedback()
                &&& final(self).retry_feedback() == Some(feedback@)
            },
    {
        if passed {
            self.outputs.push(output);
            self.final_score = score;
            self.final_feedback = feedback;
            self.current = self.current + 1;
            self.retries = 0;
            self.retry_feedback = None;
        } else {
            let retries = self.retries + 1;
            self.total_retries = self.total_retries + 1;
            if retries > MAX_RETRIES {
                self.outputs.push(output);
                self.final_score = score;
                self.final_feedback = feedback;
                self.current = self.current + 1;
                self.retries = 0;
                self.retry_feedback = None;
            } else {
                self.retries = retries;
                self.retry_feedback = Some(feedback);
            }
        }
    }

    /// The result of a finished loop: the planned tasks, one output per
    /// task, the last settling score and feedback, whether that score
    /// passes, and the total number of retries.
    pub fn finish(self) -> (r: PEVResult)
        requires
            self.wf(),
            counters_done(self.counters()),
        ensures
            r.tasks@ == self.tasks(),
            r.outputs@ == self.outputs(),
            r.outputs@.len() == r.tasks@.len(),
            forall|i: int| 0 <= i < r.outputs@.len() ==> #[trigger] r.outputs@[i].task_id@ == r.tasks@[i].id@,
            r.verify_score == self.final_score(),
            r.passed == passes(self.final_score()),
            r.feedback@ == self.final_feedback(),
            r.retries == self.counters().total_retries,
            r.retries <= (MAX_RETRIES + 1) * r.tasks@.len(),
    {
        proof {
            assert(self.total_retries <= self.tasks@.len() * (MAX_RETRIES + 1));
            assert(self.tasks@.len() * (MAX_RETRIES + 1) == (MAX_RETRIES + 1) * self.tasks@.len())
                by (nonlinear_arith);
        }
        let passed = self.final_score >= PASS_THRESHOLD;
        PEVResult {
            tasks: self.tasks,
            outputs: self.outputs,
            verify_score: self.final_score,
            passed,
            feedback: self.final_feedback,
            retries: self.total_retries,
        }
    }
}

} // verus!
