//! Offloaded blocking work: the life of one task from submission to the one
//! delivery of its outcome, and how that outcome is labelled.
//!
//! The work's own failure and the failure of the worker context that should
//! have run it are kept apart from the moment they arise.

use vstd::prelude::*;
use crate::errors::SubmitError;

verus! {

/// Where one offloaded task stands.
#[derive(Debug, PartialEq, Eq)]
pub enum TaskState<T, E> {
    /// Handed over, not yet picked up by a worker.
    Submitted,
    /// A worker is running it; it runs to completion.
    Running,
    /// The work returned this value.
    Completed(T),
    /// The work failed with this error of its own.
    FailedClosure(E),
    /// The worker context could not run the work to completion.
    FailedExecutor,
}

impl<T, E> TaskState<T, E> {
    /// One of the three states in which a task ends.
    pub open spec fn is_terminal(self) -> bool {
        self is Completed || self is FailedClosure || self is FailedExecutor
    }

    /// What the awaiting request is handed, once the task has ended.
    pub open spec fn outcome(self) -> Option<Result<T, SubmitError<E>>> {
        match self {
            TaskState::Completed(value) => Some(Ok(value)),
            TaskState::FailedClosure(e) => Some(Err(SubmitError::OffloadError(e))),
            TaskState::FailedExecutor => Some(Err(SubmitError::ExecutorError)),
            _ => None,
        }
    }

    /// A worker picks the task up. Only a submitted task can be picked up.
    pub open spec fn started(self) -> TaskState<T, E> {
        match self {
            TaskState::Submitted => TaskState::Running,
            _ => self,
        }
    }

    /// The work returns `result`. Only a running task can return.
    pub open spec fn finished(self, result: Result<T, E>) -> TaskState<T, E> {
        match self {
            TaskState::Running => match result {
                Ok(value) => TaskState::Completed(value),
                Err(e) => TaskState::FailedClosure(e),
            },
            _ => self,
        }
    }

    /// The worker context fails. Only a task that has not ended is affected.
    pub open spec fn executor_failed(self) -> TaskState<T, E> {
        match self {
            TaskState::Submitted | TaskState::Running => TaskState::FailedExecutor,
            _ => self,
        }
    }
}

/// One thing that happens to a task.
pub enum TaskEvent<T, E> {
    /// A worker picks the task up.
    Start,
    /// The work returns.
    Finish(Result<T, E>),
    /// The worker context fails.
    ExecutorFailure,
}

impl<T, E> TaskState<T, E> {
    /// The state after one event.
    pub open spec fn step(self, event: TaskEvent<T, E>) -> TaskState<T, E> {
        match event {
            TaskEvent::Start => self.started(),
            TaskEvent::Finish(result) => self.finished(result),
            TaskEvent::ExecutorFailure => self.executor_failed(),
        }
    }

    /// The state after a run of events, in their order.
    pub open spec fn after(self, events: Seq<TaskEvent<T, E>>) -> TaskState<T, E>
        decreases events.len(),
    {
        if events.len() == 0 {
            self
        } else {
            self.after(events.drop_last()).step(events.last())
        }
    }

    /// How far along a task is: submitted, running, ended.
    pub open spec fn progress(self) -> nat {
        match self {
            TaskState::Submitted => 0,
            TaskState::Running => 1,
            _ => 2,
        }
    }
}

/// A task only moves forward, one stage at a time or straight to its end:
/// no event takes it back, and no event takes a submitted task to a
/// completed or failed-closure state without its having run.
pub proof fn lemma_only_forward<T, E>(state: TaskState<T, E>, event: TaskEvent<T, E>)
    ensures
        state.progress() <= state.step(event).progress(),
        state is Submitted && !(state.step(event) is Submitted) ==> state.step(event) is Running
            || state.step(event) is FailedExecutor,
        state.step(event) is Completed || state.step(event) is FailedClosure ==> state is Running
            || state == state.step(event),
{
}

/// A task ends once: a task that has ended stays exactly as it is, whatever
/// happens next, so its outcome never changes and the three ways of ending
/// exclude each other.
pub proof fn lemma_terminal_is_final<T, E>(state: TaskState<T, E>, result: Result<T, E>)
    requires
        state.is_terminal(),
    ensures
        state.started() == state,
        state.finished(result) == state,
        state.executor_failed() == state,
        state.outcome().is_some(),
{
}

/// The outcome is settled once: whatever happens to a task after it has
/// ended, in whatever order, it stays as it ended, and what it hands over
/// stays the same.
pub proof fn lemma_settled_once<T, E>(state: TaskState<T, E>, events: Seq<TaskEvent<T, E>>)
    requires
        state.is_terminal(),
    ensures
        state.after(events) == state,
        state.after(events).outcome() == state.outcome(),
    decreases events.len(),
{
    if events.len() > 0 {
        lemma_settled_once(state, events.drop_last());
        match events.last() {
            TaskEvent::Finish(result) => lemma_terminal_is_final(state, result),
            _ => {},
        }
    }
}

/// Only a task that has ended has an outcome to hand over.
pub proof fn lemma_outcome_iff_terminal<T, E>(state: TaskState<T, E>)
    ensures
        state.outcome().is_some() <==> state.is_terminal(),
        state is Completed ==> state.outcome() == Some(
            Ok::<T, SubmitError<E>>(state->Completed_0),
        ),
        state is FailedClosure ==> state.outcome() == Some(
            Err::<T, SubmitError<E>>(SubmitError::OffloadError(state->FailedClosure_0)),
        ),
        state is FailedExecutor ==> state.outcome() == Some(
            Err::<T, SubmitError<E>>(SubmitError::ExecutorError),
        ),
{
}

/// The work's failure and the executor's failure are never taken for each
/// other. Work that runs and fails with `e` ends as `OffloadError(e)`, with
/// `e` as it was; work that runs and succeeds ends with its value; and
/// whatever the work would have returned, a worker context that fails before
/// the work is picked up or while it runs ends the task as `ExecutorError`.
/// No return of the work ends a task as `ExecutorError`.
pub proof fn lemma_failures_are_not_conflated<T, E>(result: Result<T, E>)
    ensures
        ({
            let submitted = TaskState::<T, E>::Submitted;
            &&& submitted.started().finished(result).outcome() == Some(resolution(Some(result)))
            &&& resolution(Some(result)) != Err::<T, SubmitError<E>>(SubmitError::ExecutorError)
            &&& result matches Err(e) ==> resolution(Some(result)) == Err::<T, SubmitError<E>>(
                SubmitError::OffloadError(e),
            )
            &&& result matches Ok(value) ==> resolution(Some(result)) == Ok::<T, SubmitError<E>>(
                value,
            )
            &&& submitted.executor_failed().outcome() == Some(resolution(None::<Result<T, E>>))
            &&& submitted.started().executor_failed().outcome() == Some(
                resolution(None::<Result<T, E>>),
            )
            &&& resolution(None::<Result<T, E>>) == Err::<T, SubmitError<E>>(
                SubmitError::ExecutorError,
            )
            &&& submitted.started().executor_failed().finished(result).outcome() == Some(
                resolution(None::<Result<T, E>>),
            )
        }),
{
}

/// What the awaiting request is handed for a worker's report: the work's
/// result as it is, with the work's error wrapped as `OffloadError`, or
/// `ExecutorError` where no report came.
pub open spec fn resolution<T, E>(report: Option<Result<T, E>>) -> Result<T, SubmitError<E>> {
    match report {
        Some(Ok(value)) => Ok(value),
        Some(Err(e)) => Err(SubmitError::OffloadError(e)),
        None => Err(SubmitError::ExecutorError),
    }
}

/// Labels what came back from the worker context. `report` is the work's
/// result, or `None` where the worker context did not run the work to
/// completion.
pub fn resolve<T, E>(report: Option<Result<T, E>>) -> (resolved: Result<T, SubmitError<E>>)
    ensures
        resolved == resolution(report),
{
    match report {
        Some(Ok(value)) => Ok(value),
        Some(Err(e)) => Err(SubmitError::OffloadError(e)),
        None => Err(SubmitError::ExecutorError),
    }
}

/// Submits `work` to `executor` and labels what comes back.
///
/// The executor stands for the worker context: it is handed the work, and
/// reports the work's result, or `None` where it could not run the work to
/// completion. The work's value and the work's error reach the caller
/// untouched; nothing is retried.
pub fn submit<T, E, W, X>(work: W, executor: X) -> (resolved: Result<T, SubmitError<E>>) where
    W: FnOnce() -> Result<T, E>,
    X: FnOnce(W) -> Option<Result<T, E>>,

    requires
        executor.requires((work,)),
    ensures
        exists|report: Option<Result<T, E>>|
            #[trigger] executor.ensures((work,), report) && resolved == resolution(report),
{
    resolve(executor(work))
}

/// One offloaded task. It belongs to the request that submitted it, and its
/// outcome is handed over by taking the task apart, so at most once.
#[derive(Debug)]
pub struct Task<T, E> {
    state: TaskState<T, E>,
}

impl<T, E> View for Task<T, E> {
    type V = TaskState<T, E>;

    closed spec fn view(&self) -> TaskState<T, E> {
        self.state
    }
}

impl<T, E> Task<T, E> {
    /// A task that was just submitted.
    pub fn new() -> (task: Task<T, E>)
        ensures
            task@ == TaskState::<T, E>::Submitted,
    {
        Task { state: TaskState::Submitted }
    }

    /// Where the task stands.
    pub fn state(&self) -> (state: &TaskState<T, E>)
        ensures
            *state == self@,
    {
        &self.state
    }

    /// Whether the task has ended.
    pub fn is_terminal(&self) -> (ended: bool)
        ensures
            ended == self@.is_terminal(),
    {
        match &self.state {
            TaskState::Submitted | TaskState::Running => false,
            _ => true,
        }
    }

    /// A worker picks the task up. Says whether that changed anything.
    pub fn start(&mut self) -> (moved: bool)
        ensures
            final(self)@ == old(self)@.started(),
            moved == (old(self)@ is Submitted),
    {
        match &self.state {
            TaskState::Submitted => {
                self.state = TaskState::Running;
                true
            },
            _ => false,
        }
    }

    /// The work returns `result`. Says whether that changed anything.
    pub fn finish(&mut self, result: Result<T, E>) -> (moved: bool)
        ensures
            final(self)@ == old(self)@.finished(result),
            moved == (old(self)@ is Running),
    {
        match &self.state {
            TaskState::Running => {
                match result {
                    Ok(value) => {
                        self.state = TaskState::Completed(value);
                    },
                    Err(e) => {
                        self.state = TaskState::FailedClosure(e);
                    },
                }
                true
            },
            _ => false,
        }
    }

    /// The worker context fails. Says whether that changed anything.
    pub fn fail_executor(&mut self) -> (moved: bool)
        ensures
            final(self)@ == old(self)@.executor_failed(),
            moved == !old(self)@.is_terminal(),
    {
        match &self.state {
            TaskState::Submitted | TaskState::Running => {
                self.state = TaskState::FailedExecutor;
                true
            },
            _ => false,
        }
    }

    /// Runs a submitted task to its end on the calling context: the task is
    /// picked up, `work` is called once, and what it returns ends the task.
    /// A task that is not waiting to be picked up is left alone, and `work`
    /// is not called.
    pub fn run<F>(&mut self, work: F) -> (ran: bool) where F: FnOnce() -> Result<T, E>
        requires
            work.requires(()),
        ensures
            ran == (old(self)@ is Submitted),
            ran ==> exists|result: Result<T, E>|
                #[trigger] work.ensures((), result) && final(self)@ == old(
                    self,
                )@.started().finished(result),
            !ran ==> final(self)@ == old(self)@,
    {
        if self.start() {
            let result = work();
            self.finish(result);
            true
        } else {
            false
        }
    }

    /// Hands the outcome to the awaiting request, once the task has ended.
    /// A task that has not ended is handed back as it is.
    pub fn deliver(self) -> (handed: Result<Result<T, SubmitError<E>>, Task<T, E>>)
        ensures
            self@.outcome() matches Some(outcome) ==> handed == Ok::<
                Result<T, SubmitError<E>>,
                Task<T, E>,
            >(outcome),
            self@.outcome().is_none() ==> handed == Err::<Result<T, SubmitError<E>>, Task<T, E>>(
                self,
            ),
    {
        match self.state {
            TaskState::Completed(value) => Ok(Ok(value)),
            TaskState::FailedClosure(e) => Ok(Err(SubmitError::OffloadError(e))),
            TaskState::FailedExecutor => Ok(Err(SubmitError::ExecutorError)),
            TaskState::Submitted => Err(Task { state: TaskState::Submitted }),
            TaskState::Running => Err(Task { state: TaskState::Running }),
        }
    }
}

} // verus!
