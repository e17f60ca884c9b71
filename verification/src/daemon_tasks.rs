//! The bookkeeping of one daemon task phase: whether it still accepts tasks,
//! which task failures it has seen, and what its shutdown reports.
//!
//! The service owns two phases, background and runtime; background ingress
//! is shut down before the supervised processes, and the runtime readers and
//! watchers drain afterwards. Spawning, cancellation and joining are done by
//! the caller; this state decides what is admitted and what is reported.
use vstd::prelude::*;
use vstd::string::*;

use crate::text::{contains_spec, decimal_spec, decimal_string, owned, push_decimal};

verus! {

/// What a tracked task's future came to.
#[derive(Debug, Clone)]
pub enum TaskOutcome {
    /// The future returned `Ok(())`.
    Completed,
    /// The future returned an error, rendered with its cause chain.
    Failed { error: String },
    /// The future panicked.
    Panicked { payload: PanicPayload },
}

/// A panic payload as far as it can be read: a string, or anything else.
#[derive(Debug, Clone)]
pub enum PanicPayload {
    Text(String),
    Other,
}

/// The text of a panic payload, or `non-string panic payload`.
pub open spec fn panic_message_spec(payload: PanicPayload) -> Seq<char> {
    match payload {
        PanicPayload::Text(t) => t@,
        PanicPayload::Other => "non-string panic payload"@,
    }
}

/// The readable text of a panic payload.
pub fn panic_payload_message(payload: &PanicPayload) -> (res: &str)
    ensures
        res@ == panic_message_spec(*payload),
{
    match payload {
        PanicPayload::Text(t) => t.as_str(),
        PanicPayload::Other => "non-string panic payload",
    }
}

/// The failure a finished task reports, if any. A task that completes is a
/// failure only when it was meant to run until cancelled and was not
/// cancelled.
pub open spec fn task_failure_spec(
    name: Seq<char>,
    outcome: TaskOutcome,
    expected_completion: bool,
    cancelled: bool,
) -> Option<Seq<char>> {
    match outcome {
        TaskOutcome::Completed => if expected_completion || cancelled {
            None
        } else {
            Some("task '"@ + name + "' exited unexpectedly"@)
        },
        TaskOutcome::Failed { error } => Some("task '"@ + name + "' failed: "@ + error@),
        TaskOutcome::Panicked { payload } => Some(
            "task '"@ + name + "' panicked: "@ + panic_message_spec(payload),
        ),
    }
}

/// The failure message a finished task reports, if any.
pub fn task_failure(name: &str, outcome: &TaskOutcome, expected_completion: bool, cancelled: bool) -> (res: Option<String>)
    ensures
        res.deep_view() == task_failure_spec(name@, *outcome, expected_completion, cancelled),
{
    match outcome {
        TaskOutcome::Completed => {
            if expected_completion || cancelled {
                None
            } else {
                let mut s = owned("task '");
                s.append(name);
                s.append("' exited unexpectedly");
                Some(s)
            }
        },
        TaskOutcome::Failed { error } => {
            let mut s = owned("task '");
            s.append(name);
            s.append("' failed: ");
            s.append(error.as_str());
            Some(s)
        },
        TaskOutcome::Panicked { payload } => {
            let mut s = owned("task '");
            s.append(name);
            s.append("' panicked: ");
            s.append(panic_payload_message(payload));
            Some(s)
        },
    }
}

/// `parts` joined with `sep` between neighbours.
pub open spec fn join_spec(parts: Seq<Seq<char>>, sep: Seq<char>) -> Seq<char>
    decreases parts.len(),
{
    if parts.len() == 0 {
        Seq::empty()
    } else if parts.len() == 1 {
        parts[0]
    } else {
        join_spec(parts.drop_last(), sep) + sep + parts.last()
    }
}

/// `parts` joined with `sep` between neighbours.
pub fn join_strings(parts: &Vec<String>, sep: &str) -> (res: String)
    ensures
        res@ == join_spec(parts.deep_view(), sep@),
{
    let mut out = String::new();
    let ghost ps = parts.deep_view();
    let mut i: usize = 0;
    proof {
        assert(ps.take(0) =~= Seq::<Seq<char>>::empty());
    }
    while i < parts.len()
        invariant
            i <= parts.len(),
            ps == parts.deep_view(),
            out@ == join_spec(ps.take(i as int), sep@),
        decreases parts.len() - i,
    {
        proof {
            assert(ps.take(i + 1).drop_last() =~= ps.take(i as int));
            assert(ps.take(i + 1).last() == parts[i as int]@);
        }
        if i > 0 {
            out.append(sep);
        } else {
            assert(out@ =~= Seq::<char>::empty());
            assert(ps.take(1)[0] == parts[0]@);
        }
        out.append(parts[i].as_str());
        proof {
            if i == 0 {
                assert(out@ =~= parts[0]@);
            }
        }
        i = i + 1;
    }
    proof {
        assert(ps.take(parts.len() as int) =~= ps);
    }
    out
}

/// The message of a task refused because its phase is shutting down.
pub open spec fn rejection_message(name: Seq<char>) -> Seq<char> {
    "daemon task phase is shutting down; rejected task '"@ + name + "'"@
}

/// The failure recorded when a phase's tasks did not finish in time.
pub open spec fn join_timeout_message(phase: Seq<char>, timeout_ms: nat, remaining: nat) -> Seq<char> {
    phase + " task join timed out after "@ + decimal_spec(timeout_ms) + " ms with "@
        + decimal_spec(remaining) + " task(s) remaining"@
}

/// The error a phase's shutdown reports for its failures.
pub open spec fn shutdown_error_message(phase: Seq<char>, failures: Seq<Seq<char>>) -> Seq<char> {
    "daemon "@ + phase + " task shutdown reported "@ + decimal_spec(failures.len()) + " failure(s): "@
        + join_spec(failures, "; "@)
}

/// A phase as far as admission and reporting go.
pub struct TaskPhaseView {
    pub accepting: bool,
    pub failures: Seq<Seq<char>>,
}

/// The phase once shutdown has begun: it accepts nothing more.
pub open spec fn shutdown_begun(v: TaskPhaseView) -> TaskPhaseView {
    TaskPhaseView { accepting: false, failures: v.failures }
}

/// The answer to a request to track a new task.
pub open spec fn admission(v: TaskPhaseView, name: Seq<char>) -> Result<(), Seq<char>> {
    if v.accepting {
        Ok(())
    } else {
        Err(rejection_message(name))
    }
}

/// What finishing a shutdown reports: success exactly when no failure was
/// recorded, else every failure in the order recorded.
pub open spec fn shutdown_report(v: TaskPhaseView, phase: Seq<char>) -> Result<(), Seq<char>> {
    if v.failures.len() == 0 {
        Ok(())
    } else {
        Err(shutdown_error_message(phase, v.failures))
    }
}

/// The admission flag and the failures seen so far of one task phase.
#[derive(Debug)]
pub struct TaskPhaseState {
    accepting: bool,
    failures: Vec<String>,
}

impl View for TaskPhaseState {
    type V = TaskPhaseView;

    closed spec fn view(&self) -> TaskPhaseView {
        TaskPhaseView { accepting: self.accepting, failures: self.failures.deep_view() }
    }
}

impl TaskPhaseState {
    /// A phase that accepts tasks and has seen no failure.
    pub fn new() -> (res: Self)
        ensures
            res@.accepting,
            res@.failures.len() == 0,
    {
        TaskPhaseState { accepting: true, failures: Vec::new() }
    }

    /// Whether new tasks are still accepted.
    pub fn is_accepting(&self) -> (res: bool)
        ensures
            res == self@.accepting,
    {
        self.accepting
    }

    /// The number of failures recorded and not yet reported.
    pub fn failure_count(&self) -> (res: usize)
        ensures
            res == self@.failures.len(),
    {
        self.failures.len()
    }

    /// Decides whether a task named `name` may be tracked.
    pub fn check_admission(&self, name: &str) -> (res: Result<(), String>)
        ensures
            match (res, admission(self@, name@)) {
                (Ok(()), Ok(())) => true,
                (Err(e), Err(m)) => e@ == m,
                _ => false,
            },
    {
        if !self.accepting {
            let mut s = owned("daemon task phase is shutting down; rejected task '");
            s.append(name);
            s.append("'");
            return Err(s);
        }
        Ok(())
    }

    /// Records the end of a tracked task; a failure, if it is one, is
    /// appended to the phase's failures.
    pub fn record_outcome(&mut self, name: &str, outcome: &TaskOutcome, expected_completion: bool, cancelled: bool)
        ensures
            final(self)@.accepting == old(self)@.accepting,
            final(self)@.failures == match task_failure_spec(name@, *outcome, expected_completion, cancelled) {
                Some(f) => old(self)@.failures.push(f),
                None => old(self)@.failures,
            },
    {
        match task_failure(name, outcome, expected_completion, cancelled) {
            Some(f) => {
                let ghost before = self.failures.deep_view();
                let ghost fv = f@;
                self.failures.push(f);
                assert(self.failures.deep_view() =~= before.push(fv));
            },
            None => {},
        }
    }

    /// Stops admitting tasks; cancellation and closing the tracker are the
    /// caller's part.
    pub fn begin_shutdown(&mut self)
        ensures
            final(self)@ == shutdown_begun(old(self)@),
    {
        self.accepting = false;
    }

    /// Records that joining the phase's tasks timed out with `remaining`
    /// tasks still running.
    pub fn record_join_timeout(&mut self, phase: &str, timeout_ms: u128, remaining: u128)
        ensures
            final(self)@.accepting == old(self)@.accepting,
            final(self)@.failures == old(self)@.failures.push(
                join_timeout_message(phase@, timeout_ms as nat, remaining as nat),
            ),
    {
        let mut s = owned(phase);
        s.append(" task join timed out after ");
        push_decimal(&mut s, timeout_ms);
        s.append(" ms with ");
        push_decimal(&mut s, remaining);
        s.append(" task(s) remaining");
        let ghost before = self.failures.deep_view();
        let ghost sv = s@;
        self.failures.push(s);
        assert(self.failures.deep_view() =~= before.push(sv));
    }

    /// Ends a shutdown: takes every recorded failure and reports them.
    pub fn finish_shutdown(&mut self, phase: &str) -> (res: Result<(), String>)
        ensures
            final(self)@.accepting == old(self)@.accepting,
            final(self)@.failures.len() == 0,
            match (res, shutdown_report(old(self)@, phase@)) {
                (Ok(()), Ok(())) => true,
                (Err(e), Err(m)) => e@ == m,
                _ => false,
            },
    {
        let mut failures: Vec<String> = Vec::new();
        std::mem::swap(&mut failures, &mut self.failures);
        assert(self.failures.deep_view() =~= Seq::<Seq<char>>::empty());
        if failures.len() == 0 {
            return Ok(());
        }
        let mut s = owned("daemon ");
        s.append(phase);
        s.append(" task shutdown reported ");
        s.append(decimal_string(failures.len() as u128).as_str());
        s.append(" failure(s): ");
        s.append(join_strings(&failures, "; ").as_str());
        Err(s)
    }
}

/// Every part of a joined list occurs in the joined text.
pub proof fn lemma_join_contains_part(parts: Seq<Seq<char>>, sep: Seq<char>, i: int)
    requires
        0 <= i < parts.len(),
    ensures
        contains_spec(join_spec(parts, sep), parts[i]),
    decreases parts.len(),
{
    let j = join_spec(parts, sep);
    if parts.len() == 1 {
        let w = 0int;
        assert(j.subrange(w, w + parts[i].len()) =~= parts[i]);
    } else if i == parts.len() - 1 {
        let prefix = join_spec(parts.drop_last(), sep) + sep;
        assert(j =~= prefix + parts.last());
        let w = prefix.len() as int;
        assert(j.subrange(w, w + parts[i].len()) =~= parts[i]);
    } else {
        let init = parts.drop_last();
        assert(init[i] == parts[i]);
        lemma_join_contains_part(init, sep, i);
        let ji = join_spec(init, sep);
        let k = choose|k: int| 0 <= k && k + parts[i].len() <= ji.len() && #[trigger] ji.subrange(k, k + parts[i].len()) == parts[i];
        assert(j =~= ji + (sep + parts.last()));
        assert(j.subrange(k, k + parts[i].len()) =~= ji.subrange(k, k + parts[i].len()));
    }
}

/// Once shutdown has begun, no task is admitted, whatever its name.
pub proof fn law_no_admission_after_shutdown(v: TaskPhaseView, name: Seq<char>)
    ensures
        admission(shutdown_begun(v), name) == Err::<(), Seq<char>>(rejection_message(name)),
{
}

/// A shutdown succeeds exactly when no failure was recorded; otherwise its
/// error names every recorded failure.
pub proof fn law_shutdown_reports_every_failure(v: TaskPhaseView, phase: Seq<char>)
    ensures
        shutdown_report(v, phase) is Ok <==> v.failures.len() == 0,
        forall|i: int| 0 <= i < v.failures.len() ==> match shutdown_report(v, phase) {
            Err(m) => contains_spec(m, #[trigger] v.failures[i]),
            Ok(()) => false,
        },
{
    assert forall|i: int| 0 <= i < v.failures.len() implies match shutdown_report(v, phase) {
        Err(m) => contains_spec(m, #[trigger] v.failures[i]),
        Ok(()) => false,
    } by {
        lemma_join_contains_part(v.failures, "; "@, i);
        let j = join_spec(v.failures, "; "@);
        let prefix = "daemon "@ + phase + " task shutdown reported "@ + decimal_spec(v.failures.len()) + " failure(s): "@;
        let m = prefix + j;
        assert(m == shutdown_error_message(phase, v.failures));
        let f = v.failures[i];
        let k = choose|k: int| 0 <= k && k + f.len() <= j.len() && #[trigger] j.subrange(k, k + f.len()) == f;
        assert(m.subrange(prefix.len() + k, prefix.len() + k + f.len()) =~= j.subrange(k, k + f.len()));
    }
}

/// The two task phases of a daemon: background ingress, and the runtime
/// readers and watchers of supervised processes.
#[derive(Debug, Clone, Copy, PartialEq, Eq, Structural)]
pub enum TaskPhaseKind {
    Background,
    Runtime,
}

/// How far a daemon's shutdown has come.
#[derive(Debug, Clone, Copy, PartialEq, Eq, Structural)]
pub enum ShutdownStage {
    /// Nothing has been shut down yet.
    Running,
    /// The background phase is shut down; the runtime phase still runs.
    BackgroundStopped,
    /// Both phases are shut down.
    Stopped,
}

/// The phase to shut down next: background ingress first, so that no new
/// work arrives while the runtime phase drains; nothing once both are down.
pub open spec fn next_phase_spec(stage: ShutdownStage) -> Option<TaskPhaseKind> {
    match stage {
        ShutdownStage::Running => Some(TaskPhaseKind::Background),
        ShutdownStage::BackgroundStopped => Some(TaskPhaseKind::Runtime),
        ShutdownStage::Stopped => None,
    }
}

/// The stage after the next phase is shut down.
pub open spec fn after_phase_spec(stage: ShutdownStage) -> ShutdownStage {
    match stage {
        ShutdownStage::Running => ShutdownStage::BackgroundStopped,
        _ => ShutdownStage::Stopped,
    }
}

/// The phase to shut down next, if any.
pub fn next_phase_to_stop(stage: ShutdownStage) -> (res: Option<TaskPhaseKind>)
    ensures
        res == next_phase_spec(stage),
{
    match stage {
        ShutdownStage::Running => Some(TaskPhaseKind::Background),
        ShutdownStage::BackgroundStopped => Some(TaskPhaseKind::Runtime),
        ShutdownStage::Stopped => None,
    }
}

/// The stage reached once the phase `next_phase_to_stop` named is down.
pub fn phase_stopped(stage: ShutdownStage) -> (res: ShutdownStage)
    ensures
        res == after_phase_spec(stage),
{
    match stage {
        ShutdownStage::Running => ShutdownStage::BackgroundStopped,
        _ => ShutdownStage::Stopped,
    }
}

/// Shutting down from the start stops the background phase, then the
/// runtime phase, then nothing more: the runtime phase is never stopped
/// while background ingress still runs.
pub proof fn law_background_stops_before_runtime()
    ensures
        next_phase_spec(ShutdownStage::Running) == Some(TaskPhaseKind::Background),
        next_phase_spec(after_phase_spec(ShutdownStage::Running)) == Some(TaskPhaseKind::Runtime),
        next_phase_spec(after_phase_spec(after_phase_spec(ShutdownStage::Running))) is None,
        forall|stage: ShutdownStage| next_phase_spec(stage) == Some(TaskPhaseKind::Runtime)
            ==> stage == ShutdownStage::BackgroundStopped,
{
}

/// `pat` occurs in `s` at `at`.
proof fn lemma_occurs_at(s: Seq<char>, pat: Seq<char>, at: int)
    requires
        0 <= at,
        at + pat.len() <= s.len(),
        s.subrange(at, at + pat.len()) == pat,
    ensures
        contains_spec(s, pat),
{
}

/// A finished task is a failure unless it completed while it was expected
/// to complete or after cancellation; a failure names the task, and carries
/// the error of a failed task or the text of a panic.
pub proof fn law_task_failures(name: Seq<char>, outcome: TaskOutcome, expected_completion: bool, cancelled: bool)
    ensures
        task_failure_spec(name, outcome, expected_completion, cancelled) is None <==> (
            outcome is Completed && (expected_completion || cancelled)
        ),
        task_failure_spec(name, outcome, expected_completion, cancelled) is Some ==> contains_spec(
            task_failure_spec(name, outcome, expected_completion, cancelled)->0, name),
        outcome matches TaskOutcome::Failed { error } ==> contains_spec(
            task_failure_spec(name, outcome, expected_completion, cancelled)->0, error@),
        outcome matches TaskOutcome::Panicked { payload: PanicPayload::Text(t) } ==> contains_spec(
            task_failure_spec(name, outcome, expected_completion, cancelled)->0, t@),
{
    if let Some(m) = task_failure_spec(name, outcome, expected_completion, cancelled) {
        let head = "task '"@;
        assert(m.subrange(head.len() as int, head.len() as int + name.len()) =~= name);
        lemma_occurs_at(m, name, head.len() as int);
        match outcome {
            TaskOutcome::Failed { error } => {
                let pre = "task '"@ + name + "' failed: "@;
                assert(m == pre + error@);
                assert(m.subrange(pre.len() as int, pre.len() as int + error@.len()) =~= error@);
                lemma_occurs_at(m, error@, pre.len() as int);
            },
            TaskOutcome::Panicked { payload } => {
                if let PanicPayload::Text(t) = payload {
                    let pre = "task '"@ + name + "' panicked: "@;
                    assert(m == pre + t@);
                    assert(m.subrange(pre.len() as int, pre.len() as int + t@.len()) =~= t@);
                    lemma_occurs_at(m, t@, pre.len() as int);
                }
            },
            _ => {},
        }
    }
}

} // verus!
