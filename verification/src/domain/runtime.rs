//! The execution engine: a project's tasks run one after another, in
//! their declared order, and the first failure ends the run.
//!
//! The engine itself starts no program. It is a state machine: it says
//! which command to run next, is told how that command ended, and says
//! what follows. Whoever drives it runs the commands.

use vstd::prelude::*;
use crate::domain::project::{Project, Task, TaskType};

verus! {

/// Why a run failed.
#[derive(Debug, Clone, Copy, PartialEq, Eq)]
pub enum ExecutionError {
    /// The program could not be started.
    SpawnFailed,
    /// The program was started and its end could not be observed.
    WaitFailed,
    /// The program ended without success, with this exit code if it had
    /// one.
    NonZeroExit(Option<i32>),
}

/// How one command ended.
#[derive(Debug, Clone, Copy, PartialEq, Eq)]
pub enum CommandOutcome {
    /// The program could not be started.
    SpawnFailed,
    /// The program was started and its end could not be observed.
    WaitFailed,
    /// The program ended, with this exit code if it had one.
    Exited(Option<i32>),
}

/// Where a run stands.
#[derive(Debug, Clone, Copy, PartialEq, Eq)]
pub enum Execution {
    /// Nothing has run yet.
    Pending,
    /// The task at this index is running.
    Running(usize),
    /// The task at this index failed; no later task was started.
    Failed(usize, ExecutionError),
    /// Every task ran and succeeded.
    Completed,
}

/// A program to start, with its arguments.
#[derive(Debug, Clone, Copy)]
pub struct Invocation<'a> {
    pub program: &'a str,
    pub args: &'a Vec<String>,
}

/// What the driver of a run has to do next.
#[derive(Debug, Clone, Copy)]
pub enum Action<'a> {
    /// Start the program of the task named here, then report how it ended.
    Run(&'a Task),
    /// The run is over, with this result.
    Done(Result<(), ExecutionError>),
}

/// A state of a run together with what it asks of the driver.
#[derive(Debug, Clone, Copy)]
pub struct Step<'a> {
    pub state: Execution,
    pub action: Action<'a>,
}

/// What an outcome means for the task that had it: only an exit with
/// code zero is a success.
pub open spec fn outcome_result(outcome: CommandOutcome) -> Result<(), ExecutionError> {
    match outcome {
        CommandOutcome::SpawnFailed => Err(ExecutionError::SpawnFailed),
        CommandOutcome::WaitFailed => Err(ExecutionError::WaitFailed),
        CommandOutcome::Exited(code) => if code == Some(0i32) {
            Ok(())
        } else {
            Err(ExecutionError::NonZeroExit(code))
        },
    }
}

impl Execution {
    /// The state speaks of a task that a project of `n` tasks has.
    pub open spec fn fits(self, n: nat) -> bool {
        match self {
            Execution::Running(i) => i < n,
            Execution::Failed(i, _) => i < n,
            _ => true,
        }
    }

    /// The run is over.
    pub open spec fn is_terminal(self) -> bool {
        self is Failed || self is Completed
    }

    /// The state that a run of `n` tasks enters when task `i` is the next
    /// to run.
    pub open spec fn entering(n: nat, i: nat) -> Execution {
        if i < n {
            Execution::Running(i as usize)
        } else {
            Execution::Completed
        }
    }

    /// The transition of a run of `n` tasks. A pending run starts with the
    /// first task. A running task goes on until an outcome is reported:
    /// success moves on to the next task, or completes the run after the
    /// last; failure ends the run at once. A finished run stays as it is.
    pub open spec fn next(self, n: nat, event: Option<CommandOutcome>) -> Execution {
        match self {
            Execution::Pending => Execution::entering(n, 0),
            Execution::Running(i) => if i >= n {
                Execution::Completed
            } else {
                match event {
                    None => self,
                    Some(outcome) => match outcome_result(outcome) {
                        Ok(_) => Execution::entering(n, i as nat + 1),
                        Err(error) => Execution::Failed(i, error),
                    },
                }
            },
            Execution::Failed(_, _) => self,
            Execution::Completed => self,
        }
    }

    /// The state after the outcomes of `outcomes` were reported in turn.
    pub open spec fn settle(self, n: nat, outcomes: Seq<CommandOutcome>) -> Execution
        decreases outcomes.len(),
    {
        if outcomes.len() == 0 {
            self
        } else {
            self.next(n, Some(outcomes.first())).settle(n, outcomes.drop_first())
        }
    }

    /// What a state asks of the driver of a run of `tasks`.
    pub open spec fn asks<'a>(self, tasks: Seq<Task>, action: Action<'a>) -> bool {
        match action {
            Action::Run(task) => self matches Execution::Running(i) && i < tasks.len() && *task
                == tasks[i as int],
            Action::Done(result) => match self {
                Execution::Failed(_, error) => result == Err::<(), ExecutionError>(error),
                Execution::Completed => result == Ok::<(), ExecutionError>(()),
                _ => false,
            },
        }
    }
}

/// Classifies how a command ended: a program that could not be started or
/// waited for, or that ended with anything but exit code zero, has
/// failed.
pub fn command_result(outcome: CommandOutcome) -> (result: Result<(), ExecutionError>)
    ensures
        result == outcome_result(outcome),
{
    match outcome {
        CommandOutcome::SpawnFailed => Err(ExecutionError::SpawnFailed),
        CommandOutcome::WaitFailed => Err(ExecutionError::WaitFailed),
        CommandOutcome::Exited(code) => match code {
            Some(c) => if c == 0 {
                Ok(())
            } else {
                Err(ExecutionError::NonZeroExit(code))
            },
            None => Err(ExecutionError::NonZeroExit(code)),
        },
    }
}

/// The program that a task stands for.
pub fn task_invocation<'a>(task: &'a Task) -> (invocation: Invocation<'a>)
    ensures
        match task.value {
            TaskType::Command { name, args } => invocation.program@ == name@ && *invocation.args
                == args,
        },
{
    match &task.value {
        TaskType::Command { name, args } => Invocation { program: name.as_str(), args },
    }
}

/// One step of the run of `proj`: from the state `state` and what
/// happened since, to the next state and what it asks of the driver.
/// A run is started from `Execution::Pending`; `event` is the outcome of
/// the task that the last step asked to run.
pub fn execute_project<'a>(proj: &'a Project, state: Execution, event: Option<CommandOutcome>) -> (step: Step<'a>)
    ensures
        step.state == state.next(proj.tasks@.len(), event),
        state.fits(proj.tasks@.len()) ==> step.state.fits(proj.tasks@.len()),
        step.state.asks(proj.tasks@, step.action),
{
    let n = proj.tasks.len();
    let next = match state {
        Execution::Pending => enter(n, 0),
        Execution::Running(i) => if i >= n {
            Execution::Completed
        } else {
            match event {
                None => state,
                Some(outcome) => match command_result(outcome) {
                    Ok(_) => enter(n, i + 1),
                    Err(error) => Execution::Failed(i, error),
                },
            }
        },
        Execution::Failed(_, _) => state,
        Execution::Completed => state,
    };
    let action = match next {
        Execution::Running(i) => Action::Run(&proj.tasks[i]),
        Execution::Failed(_, error) => Action::Done(Err(error)),
        _ => Action::Done(Ok(())),
    };
    Step { state: next, action }
}

fn enter(n: usize, i: usize) -> (state: Execution)
    ensures
        state == Execution::entering(n as nat, i as nat),
{
    if i < n {
        Execution::Running(i)
    } else {
        Execution::Completed
    }
}

/// A finished run has no transition left: whatever is reported to it, it
/// stays as it is. In particular a failed run is never taken up again.
pub proof fn lemma_finished_run_stays(state: Execution, n: nat, outcomes: Seq<CommandOutcome>)
    requires
        state.is_terminal(),
    ensures
        forall|event: Option<CommandOutcome>| state.next(n, event) == state,
        state.settle(n, outcomes) == state,
    decreases outcomes.len(),
{
    if outcomes.len() > 0 {
        lemma_finished_run_stays(state, n, outcomes.drop_first());
    }
}

/// Reporting outcomes in two batches is the same as reporting them in
/// one.
pub proof fn lemma_settle_concat(
    state: Execution,
    n: nat,
    first: Seq<CommandOutcome>,
    second: Seq<CommandOutcome>,
)
    ensures
        state.settle(n, first + second) == state.settle(n, first).settle(n, second),
    decreases first.len(),
{
    if first.len() == 0 {
        assert(first + second =~= second);
    } else {
        assert((first + second).drop_first() =~= first.drop_first() + second);
        lemma_settle_concat(
            state.next(n, Some(first.first())),
            n,
            first.drop_first(),
            second,
        );
    }
}

/// While tasks succeed the run moves through them in order: after `k`
/// successes, counted from task `i`, task `i + k` is the one that runs,
/// or the run is complete if there is no such task.
pub proof fn lemma_successes_advance(n: nat, i: nat, outcomes: Seq<CommandOutcome>)
    requires
        n <= usize::MAX,
        i + outcomes.len() <= n,
        i < n,
        forall|j: int| 0 <= j < outcomes.len() ==> outcome_result(#[trigger] outcomes[j]) is Ok,
    ensures
        Execution::Running(i as usize).settle(n, outcomes) == Execution::entering(
            n,
            i + outcomes.len(),
        ),
    decreases outcomes.len(),
{
    if outcomes.len() > 0 {
        let rest = outcomes.drop_first();
        assert(outcome_result(outcomes[0]) is Ok);
        assert forall|j: int| 0 <= j < rest.len() implies outcome_result(#[trigger] rest[j]) is Ok by {
            assert(rest[j] == outcomes[j + 1]);
        }
        let after = Execution::Running(i as usize).next(n, Some(outcomes.first()));
        assert(after == Execution::entering(n, i + 1));
        assert(Execution::Running(i as usize).settle(n, outcomes) == after.settle(n, rest));
        if i + 1 < n {
            lemma_successes_advance(n, i + 1, rest);
        } else {
            assert(rest.len() == 0);
        }
    }
}

/// Fail-fast: if task `k` is the first whose command fails, the run ends
/// as `Failed(k, ..)` with that command's error, whatever is reported
/// afterwards. Up to the failure exactly the tasks `0..=k` were asked
/// for, each after the one before it; no later task is ever asked for.
pub proof fn lemma_first_failure_ends_run(n: nat, outcomes: Seq<CommandOutcome>, k: int)
    requires
        n <= usize::MAX,
        0 <= k < n,
        k < outcomes.len(),
        forall|j: int| 0 <= j < k ==> outcome_result(#[trigger] outcomes[j]) is Ok,
        outcome_result(outcomes[k]) is Err,
    ensures
        forall|m: int|
            0 <= m <= k ==> Execution::Pending.next(n, None).settle(
                n,
                #[trigger] outcomes.take(m),
            ) == Execution::Running(m as usize),
        forall|m: int|
            k < m <= outcomes.len() ==> Execution::Pending.next(n, None).settle(
                n,
                #[trigger] outcomes.take(m),
            ) == Execution::Failed(k as usize, outcome_result(outcomes[k])->Err_0),
        Execution::Pending.next(n, None).settle(n, outcomes) == Execution::Failed(
            k as usize,
            outcome_result(outcomes[k])->Err_0,
        ),
{
    let start = Execution::Pending.next(n, None);
    let failed = Execution::Failed(k as usize, outcome_result(outcomes[k])->Err_0);
    assert(start == Execution::Running(0));
    assert forall|m: int| 0 <= m <= k implies start.settle(n, #[trigger] outcomes.take(m))
        == Execution::Running(m as usize) by {
        lemma_successes_advance(n, 0, outcomes.take(m));
    }
    assert forall|m: int| k < m <= outcomes.len() implies start.settle(
        n,
        #[trigger] outcomes.take(m),
    ) == failed by {
        let before = outcomes.take(k);
        let after = outcomes.take(m).skip(k);
        assert(outcomes.take(m) =~= before + after);
        lemma_settle_concat(start, n, before, after);
        assert(start.settle(n, before) == Execution::Running(k as usize));
        assert(after.first() == outcomes[k]);
        lemma_finished_run_stays(failed, n, after.drop_first());
    }
    assert(outcomes.take(outcomes.len() as int) =~= outcomes);
}

/// A run whose commands all succeed completes, after asking for every
/// task once and in order; run again on the same outcomes it completes
/// again.
pub proof fn lemma_all_successes_complete(n: nat, outcomes: Seq<CommandOutcome>)
    requires
        n <= usize::MAX,
        outcomes.len() == n,
        forall|j: int| 0 <= j < n ==> outcome_result(#[trigger] outcomes[j]) is Ok,
    ensures
        forall|m: int|
            0 <= m < n ==> Execution::Pending.next(n, None).settle(
                n,
                #[trigger] outcomes.take(m),
            ) == Execution::Running(m as usize),
        Execution::Pending.next(n, None).settle(n, outcomes) == Execution::Completed,
{
    let start = Execution::Pending.next(n, None);
    if n > 0 {
        assert forall|m: int| 0 <= m < n implies start.settle(n, #[trigger] outcomes.take(m))
            == Execution::Running(m as usize) by {
            lemma_successes_advance(n, 0, outcomes.take(m));
        }
        lemma_successes_advance(n, 0, outcomes);
    }
}

} // verus!
