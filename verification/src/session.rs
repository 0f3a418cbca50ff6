use vstd::prelude::*;
use crate::command::{
    law_reading_moves_forward, next_action, read_action, token_views, ActionView, Reading,
};
use crate::orchestrator::{
    advance_spec, begin_spec, law_steps_move_forward, rank, Failure, FailureView, Job, JobView,
    Operation, OperationView, Outcome, OutcomeView, Progress, ProgressView, Stage,
};
use crate::size::size_of_token;

verus! {

/// A run over a chain of actions: the tokens, where the next action
/// begins, and the action under way.
#[derive(Clone, Debug, PartialEq, Eq)]
pub struct Session {
    pub tokens: Vec<String>,
    pub cursor: usize,
    pub job: Job,
}

pub struct SessionView {
    pub tokens: Seq<Seq<char>>,
    pub cursor: int,
    pub job: JobView,
}

impl View for Session {
    type V = SessionView;

    open spec fn view(&self) -> SessionView {
        SessionView {
            tokens: token_views(self.tokens@),
            cursor: self.cursor as int,
            job: self.job@,
        }
    }
}

/// Where a run stands after a step.
#[derive(Clone, Debug, PartialEq, Eq)]
pub enum Step {
    /// The host is to do the operation, and to resume the session with
    /// its outcome.
    Perform { session: Session, operation: Operation },
    /// Every action has been completed.
    Finished,
    /// An action has failed. The run ends here: what was done stays
    /// done, and the tokens behind the failed action are never looked at.
    Failed(Failure),
}

pub enum StepView {
    Perform { session: SessionView, operation: OperationView },
    Finished,
    Failed(FailureView),
}

impl View for Step {
    type V = StepView;

    open spec fn view(&self) -> StepView {
        match *self {
            Step::Perform { session, operation } => StepView::Perform {
                session: session@,
                operation: operation@,
            },
            Step::Finished => StepView::Finished,
            Step::Failed(failure) => StepView::Failed(failure@),
        }
    }
}

/// What the operator is told where no action is asked for.
pub open spec fn usage_hint() -> Seq<char> {
    "No actions provided. Try: swap-manager --help\n"@
}

/// The job that awaits the end of writing out a text.
pub open spec fn emitting() -> JobView {
    JobView {
        stage: Stage::Emit,
        size_token: Seq::empty(),
        replace: false,
        persist: false,
        bytes: 0,
    }
}

/// Takes up the action that begins at `cursor`: its first operation, or
/// the end of the run where no token is left or the tokens there are no
/// action.
pub open spec fn dispatch_spec(tokens: Seq<Seq<char>>, cursor: int) -> StepView {
    match read_action(tokens, cursor) {
        Reading::End => StepView::Finished,
        Reading::Rejected(e) => StepView::Failed(FailureView::Usage(e)),
        Reading::Next { action, next } => StepView::Perform {
            session: SessionView { tokens, cursor: next, job: begin_spec(action).0 },
            operation: begin_spec(action).1,
        },
    }
}

/// The first step of a run. Without tokens the run writes out the usage
/// hint, and nothing else.
pub open spec fn open_spec(tokens: Seq<Seq<char>>) -> StepView {
    if tokens.len() == 0 {
        StepView::Perform {
            session: SessionView { tokens, cursor: 0, job: emitting() },
            operation: OperationView::Emit { text: usage_hint() },
        }
    } else {
        dispatch_spec(tokens, 0)
    }
}

/// The step that follows the outcome of the operation that a session
/// awaits. The action under way goes on, or fails and ends the run, or
/// is complete, and then the next action is taken up.
pub open spec fn resume_spec(session: SessionView, outcome: OutcomeView) -> StepView {
    match advance_spec(session.job, outcome) {
        ProgressView::Perform { job, operation } => StepView::Perform {
            session: SessionView { job, ..session },
            operation,
        },
        ProgressView::Completed => dispatch_spec(session.tokens, session.cursor),
        ProgressView::Failed(failure) => StepView::Failed(failure),
    }
}

fn dispatch(tokens: Vec<String>, cursor: usize) -> (step: Step)
    ensures
        step@ == dispatch_spec(token_views(tokens@), cursor as int),
{
    match next_action(&tokens, cursor) {
        Ok(None) => Step::Finished,
        Err(e) => Step::Failed(Failure::Usage(e)),
        Ok(Some((action, next))) => {
            let (job, operation) = Job::begin(action);
            Step::Perform { session: Session { tokens, cursor: next, job }, operation }
        },
    }
}

impl Session {
    /// Begins a run over the tokens of a command line.
    pub fn open(tokens: Vec<String>) -> (step: Step)
        ensures
            step@ == open_spec(token_views(tokens@)),
    {
        if tokens.len() == 0 {
            let job = Job {
                stage: Stage::Emit,
                size_token: String::new(),
                replace: false,
                persist: false,
                bytes: 0,
            };
            let text = String::from_str("No actions provided. Try: swap-manager --help\n");
            Step::Perform {
                session: Session { tokens, cursor: 0, job },
                operation: Operation::Emit { text },
            }
        } else {
            dispatch(tokens, 0)
        }
    }

    /// Goes on with the run, given how the operation went that the
    /// session awaited.
    pub fn resume(self, outcome: Outcome) -> (step: Step)
        ensures
            step@ == resume_spec(self@, outcome@),
    {
        let Session { tokens, cursor, job } = self;
        match job.advance(outcome) {
            Progress::Perform { job, operation } => Step::Perform {
                session: Session { tokens, cursor, job },
                operation,
            },
            Progress::Completed => dispatch(tokens, cursor),
            Progress::Failed(failure) => Step::Failed(failure),
        }
    }
}

/// A run without tokens writes out the usage hint and ends well,
/// whatever the host reports of the writing: it asks for nothing on
/// files or of utilities.
pub proof fn law_empty_run(outcome: OutcomeView)
    ensures
        open_spec(Seq::empty()) matches StepView::Perform { session, operation } && operation == (
        OperationView::Emit { text: usage_hint() }) && resume_spec(session, outcome)
            == StepView::Finished,
{
}

/// A `set` whose size is no size ends the run at its first step, whatever
/// tokens follow it: the check of the privilege is all that is asked of
/// the host, and no later action is taken up.
pub proof fn law_bad_size_ends_the_run(
    tokens: Seq<Seq<char>>,
    cursor: int,
    outcome: OutcomeView,
)
    requires
        read_action(tokens, cursor) matches Reading::Next { action, .. } && (
        action matches ActionView::SetSwap { size_token, .. } && size_of_token(size_token) is Err),
    ensures
        dispatch_spec(tokens, cursor) matches StepView::Perform { session, operation } && operation
            == OperationView::CheckPrivilege && resume_spec(session, outcome) is Failed,
{
}

/// A bound on the operations that a session may still ask for: thirteen
/// for each token not yet read, less the steps that the action under way
/// has behind it.
pub open spec fn steps_left(session: SessionView) -> int {
    (session.tokens.len() - session.cursor) * 13 + 12 - rank(session.job.stage)
}

/// Whether a session reads its own tokens: the next action begins within
/// them or at their end.
pub open spec fn in_bounds(session: SessionView) -> bool {
    0 <= session.cursor <= session.tokens.len()
}

/// Every run ends. A run begins within its tokens; each step keeps the
/// tokens, never goes back in them, and brings the bound on what is left
/// to do down by one at least. So no step is tried twice, and a run over
/// `n` tokens asks the host for no more than `13 * (n + 1)` operations.
pub proof fn law_every_run_ends(tokens: Seq<Seq<char>>, session: SessionView, outcome: OutcomeView)
    requires
        in_bounds(session),
    ensures
        open_spec(tokens) matches StepView::Perform { session: first, .. } ==> first.tokens
            == tokens && in_bounds(first) && steps_left(first) <= 13 * tokens.len() + 12,
        resume_spec(session, outcome) matches StepView::Perform { session: next, .. }
            ==> next.tokens == session.tokens && session.cursor <= next.cursor && in_bounds(next)
            && 0 <= steps_left(next) < steps_left(session),
{
    law_reading_moves_forward(tokens, 0);
    law_reading_moves_forward(session.tokens, session.cursor);
    law_steps_move_forward(session.job, outcome);
}

} // verus!
