use vstd::prelude::*;
use crate::command::{Action, ActionView, UsageError, UsageErrorView};
use crate::fstab::{contains, line_to_append, mount_entry};
use crate::size::{parse_human_size, size_of_token, SizeError};
use crate::swaps::{read_swap_table, report_of, report_text};

verus! {

/// Where the swapfile lies.
pub const SWAPFILE: &'static str = "/swap-manager.swap";

/// The table of what is mounted and swapped on when the system boots.
pub const MOUNT_TABLE: &'static str = "/etc/fstab";

/// The table in which the kernel lists the active swap areas.
pub const SWAP_TABLE: &'static str = "/proc/swaps";

/// The size of the blocks with which the swapfile is filled where it
/// cannot be allocated at once.
pub const BLOCK_BYTES: u64 = 1_048_576;

/// The mode the swapfile is given: its owner may read and write it.
pub const SWAPFILE_MODE: u32 = 0o600;

/// Something the host is asked to do.
#[derive(Clone, Debug, PartialEq, Eq)]
pub enum Operation {
    /// Write the text to the standard output.
    Emit { text: String },
    /// Read the swap table.
    ReadSwapTable,
    /// Say whether the process runs as root.
    CheckPrivilege,
    /// Disable all swap areas.
    DisableAll,
    /// Enable the swap areas that the system is configured with.
    EnableAll,
    /// Say whether the swapfile exists.
    ProbeSwapfile,
    /// Disable the swapfile as a swap area.
    DisableSwapfile,
    /// Delete the swapfile.
    RemoveSwapfile,
    /// Allocate the swapfile at once, with the size as the operator wrote it.
    FastAllocate { size_token: String },
    /// Fill the swapfile with this many blocks of `BLOCK_BYTES` zero bytes.
    BlockFill { blocks: u64 },
    /// Give the swapfile the mode `SWAPFILE_MODE`.
    RestrictPermissions,
    /// Format the swapfile as a swap area.
    FormatSwapfile,
    /// Enable the swapfile as a swap area.
    EnableSwapfile,
    /// Read the mount table.
    ReadMountTable,
    /// Put the line at the end of the mount table.
    AppendMountTable { line: String },
}

pub enum OperationView {
    Emit { text: Seq<char> },
    ReadSwapTable,
    CheckPrivilege,
    DisableAll,
    EnableAll,
    ProbeSwapfile,
    DisableSwapfile,
    RemoveSwapfile,
    FastAllocate { size_token: Seq<char> },
    BlockFill { blocks: u64 },
    RestrictPermissions,
    FormatSwapfile,
    EnableSwapfile,
    ReadMountTable,
    AppendMountTable { line: Seq<char> },
}

impl View for Operation {
    type V = OperationView;

    open spec fn view(&self) -> OperationView {
        match *self {
            Operation::Emit { text } => OperationView::Emit { text: text@ },
            Operation::ReadSwapTable => OperationView::ReadSwapTable,
            Operation::CheckPrivilege => OperationView::CheckPrivilege,
            Operation::DisableAll => OperationView::DisableAll,
            Operation::EnableAll => OperationView::EnableAll,
            Operation::ProbeSwapfile => OperationView::ProbeSwapfile,
            Operation::DisableSwapfile => OperationView::DisableSwapfile,
            Operation::RemoveSwapfile => OperationView::RemoveSwapfile,
            Operation::FastAllocate { size_token } => OperationView::FastAllocate {
                size_token: size_token@,
            },
            Operation::BlockFill { blocks } => OperationView::BlockFill { blocks },
            Operation::RestrictPermissions => OperationView::RestrictPermissions,
            Operation::FormatSwapfile => OperationView::FormatSwapfile,
            Operation::EnableSwapfile => OperationView::EnableSwapfile,
            Operation::ReadMountTable => OperationView::ReadMountTable,
            Operation::AppendMountTable { line } => OperationView::AppendMountTable { line: line@ },
        }
    }
}

/// How an operation went, as the host reports it.
#[derive(Clone, Debug, PartialEq, Eq)]
pub enum Outcome {
    /// It was done: a utility ended with status zero, a file was removed
    /// or written.
    Done,
    /// A utility ran and ended with this status.
    Exited(i32),
    /// It could not be done at all: the utility did not start, the file
    /// could not be reached.
    Unavailable,
    /// The answer to a question is yes.
    Yes,
    /// The answer to a question is no.
    No,
    /// The text that was read.
    Content(String),
}

pub enum OutcomeView {
    Done,
    Exited(i32),
    Unavailable,
    Yes,
    No,
    Content(Seq<char>),
}

impl View for Outcome {
    type V = OutcomeView;

    open spec fn view(&self) -> OutcomeView {
        match *self {
            Outcome::Done => OutcomeView::Done,
            Outcome::Exited(code) => OutcomeView::Exited(code),
            Outcome::Unavailable => OutcomeView::Unavailable,
            Outcome::Yes => OutcomeView::Yes,
            Outcome::No => OutcomeView::No,
            Outcome::Content(text) => OutcomeView::Content(text@),
        }
    }
}

/// The step of an action whose outcome is awaited.
#[derive(Clone, Copy, Debug, PartialEq, Eq, Structural)]
pub enum Stage {
    /// A text is being written out.
    Emit,
    /// `show`: the swap table is being read.
    ReadTable,
    /// `empty`: the privilege is being checked.
    EmptyPrivilege,
    /// `empty`: all swap is being disabled.
    EmptyDisable,
    /// `empty`: the configured swap is being enabled.
    EmptyEnable,
    /// `set`: the privilege is being checked.
    SetPrivilege,
    /// `set`: all swap is being disabled, as `--replace` asks.
    SetDisableAll,
    /// `set`: the swapfile is being looked for.
    SetProbe,
    /// `set`: the swapfile found is being disabled.
    SetDisableStale,
    /// `set`: the swapfile found is being deleted.
    SetRemoveStale,
    /// `set`: the swapfile is being allocated at once.
    SetAllocate,
    /// `set`: the swapfile is being filled block by block.
    SetFill,
    /// `set`: the swapfile's mode is being restricted.
    SetRestrict,
    /// `set`: the swapfile is being formatted.
    SetFormat,
    /// `set`: the swapfile is being enabled.
    SetActivate,
    /// `set`: the mount table is being read, as `--persist` asks.
    SetReadMounts,
    /// `set`: the entry is being put at the end of the mount table.
    SetAppend,
}

/// How an operation failed.
#[derive(Clone, Copy, Debug, PartialEq, Eq, Structural)]
pub enum Fault {
    /// The utility ended with this status, which is not zero.
    Exit(i32),
    /// The operation could not be done at all.
    Unavailable,
}

/// Why a run stopped.
#[derive(Clone, Debug, PartialEq, Eq)]
pub enum Failure {
    /// The tokens are no chain of actions.
    Usage(UsageError),
    /// The action needs root, and the process is not.
    NotPrivileged,
    /// The size of a `set` is no size.
    Size { token: String, error: SizeError },
    /// A step that must succeed did not.
    Step { stage: Stage, fault: Fault },
    /// The swap areas add up to more than 64 bits can count.
    TotalsOverflow,
}

pub enum FailureView {
    Usage(UsageErrorView),
    NotPrivileged,
    Size { token: Seq<char>, error: SizeError },
    Step { stage: Stage, fault: Fault },
    TotalsOverflow,
}

impl View for Failure {
    type V = FailureView;

    open spec fn view(&self) -> FailureView {
        match *self {
            Failure::Usage(e) => FailureView::Usage(e@),
            Failure::NotPrivileged => FailureView::NotPrivileged,
            Failure::Size { token, error } => FailureView::Size { token: token@, error },
            Failure::Step { stage, fault } => FailureView::Step { stage, fault },
            Failure::TotalsOverflow => FailureView::TotalsOverflow,
        }
    }
}

/// An action under way: the step whose outcome is awaited, and what the
/// steps to come need to know.
#[derive(Clone, Debug, PartialEq, Eq)]
pub struct Job {
    pub stage: Stage,
    /// The size of a `set` as the operator wrote it; empty otherwise.
    pub size_token: String,
    /// Whether a `set` disables all swap first.
    pub replace: bool,
    /// Whether a `set` records the swapfile in the mount table.
    pub persist: bool,
    /// The size of a `set` in bytes, from the privilege check on.
    pub bytes: u64,
}

pub struct JobView {
    pub stage: Stage,
    pub size_token: Seq<char>,
    pub replace: bool,
    pub persist: bool,
    pub bytes: u64,
}

impl View for Job {
    type V = JobView;

    open spec fn view(&self) -> JobView {
        JobView {
            stage: self.stage,
            size_token: self.size_token@,
            replace: self.replace,
            persist: self.persist,
            bytes: self.bytes,
        }
    }
}

/// What advancing an action leads to.
#[derive(Clone, Debug, PartialEq, Eq)]
pub enum Progress {
    /// The host is to do the operation and report how it went.
    Perform { job: Job, operation: Operation },
    /// The action is complete.
    Completed,
    /// The action has failed and is given up.
    Failed(Failure),
}

pub enum ProgressView {
    Perform { job: JobView, operation: OperationView },
    Completed,
    Failed(FailureView),
}

impl View for Progress {
    type V = ProgressView;

    open spec fn view(&self) -> ProgressView {
        match *self {
            Progress::Perform { job, operation } => ProgressView::Perform {
                job: job@,
                operation: operation@,
            },
            Progress::Completed => ProgressView::Completed,
            Progress::Failed(failure) => ProgressView::Failed(failure@),
        }
    }
}

/// The fault that an outcome reports of a step that acts, if any. Done,
/// and a status of zero, report none; a status that is not zero reports
/// itself; every other outcome counts as the step not being done at all.
pub open spec fn fault_of(outcome: OutcomeView) -> Option<Fault> {
    match outcome {
        OutcomeView::Done => None,
        OutcomeView::Exited(code) => if code == 0 {
            None
        } else {
            Some(Fault::Exit(code))
        },
        _ => Some(Fault::Unavailable),
    }
}

/// Whether an outcome answers yes. Every outcome but `Yes` answers no.
pub open spec fn affirms(outcome: OutcomeView) -> bool {
    outcome is Yes
}

/// The text that an outcome brings; none where it brings no text.
pub open spec fn content_of(outcome: OutcomeView) -> Option<Seq<char>> {
    match outcome {
        OutcomeView::Content(text) => Some(text),
        _ => None,
    }
}

/// How many blocks of `BLOCK_BYTES` it takes to hold `bytes`: the
/// quotient, rounded up.
pub open spec fn blocks_for(bytes: nat) -> nat {
    (bytes + BLOCK_BYTES - 1) as nat / (BLOCK_BYTES as nat)
}

/// The path of the swapfile, as its characters.
pub open spec fn swapfile_path() -> Seq<char> {
    SWAPFILE@
}

/// The same job at another stage.
pub open spec fn at_stage(job: JobView, stage: Stage) -> JobView {
    JobView { stage, ..job }
}

/// The job awaits the outcome of `operation` at `stage`.
pub open spec fn proceed(job: JobView, stage: Stage, operation: OperationView) -> ProgressView {
    ProgressView::Perform { job: at_stage(job, stage), operation }
}

/// A step that must succeed: a fault ends the action, and names the step.
pub open spec fn fatal(job: JobView, outcome: OutcomeView, then: ProgressView) -> ProgressView {
    match fault_of(outcome) {
        Some(fault) => ProgressView::Failed(FailureView::Step { stage: job.stage, fault }),
        None => then,
    }
}

/// The job that an action starts as, and its first operation.
pub open spec fn begin_spec(action: ActionView) -> (JobView, OperationView) {
    match action {
        ActionView::Show => (
            JobView {
                stage: Stage::ReadTable,
                size_token: Seq::empty(),
                replace: false,
                persist: false,
                bytes: 0,
            },
            OperationView::ReadSwapTable,
        ),
        ActionView::Empty => (
            JobView {
                stage: Stage::EmptyPrivilege,
                size_token: Seq::empty(),
                replace: false,
                persist: false,
                bytes: 0,
            },
            OperationView::CheckPrivilege,
        ),
        ActionView::SetSwap { size_token, replace, persist } => (
            JobView { stage: Stage::SetPrivilege, size_token, replace, persist, bytes: 0 },
            OperationView::CheckPrivilege,
        ),
    }
}

/// What a `set` does once the swapfile is in place, allocated or filled:
/// it restricts its mode.
pub open spec fn after_creation(job: JobView) -> ProgressView {
    proceed(job, Stage::SetRestrict, OperationView::RestrictPermissions)
}

/// What a `set` does once no old swapfile is in the way: it allocates
/// the new one at once, with the size as the operator wrote it.
pub open spec fn allocation(job: JobView) -> ProgressView {
    proceed(job, Stage::SetAllocate, OperationView::FastAllocate { size_token: job.size_token })
}

/// What follows from the outcome of the step that a job awaits.
pub open spec fn advance_spec(job: JobView, outcome: OutcomeView) -> ProgressView {
    match job.stage {
        Stage::Emit => ProgressView::Completed,
        Stage::ReadTable => match content_of(outcome) {
            None => ProgressView::Failed(
                FailureView::Step { stage: Stage::ReadTable, fault: Fault::Unavailable },
            ),
            Some(text) => {
                let report = report_of(text);
                if report.total_size <= u64::MAX && report.total_used <= u64::MAX {
                    proceed(job, Stage::Emit, OperationView::Emit { text: report_text(report) })
                } else {
                    ProgressView::Failed(FailureView::TotalsOverflow)
                }
            },
        },
        Stage::EmptyPrivilege => if affirms(outcome) {
            proceed(job, Stage::EmptyDisable, OperationView::DisableAll)
        } else {
            ProgressView::Failed(FailureView::NotPrivileged)
        },
        Stage::EmptyDisable => fatal(
            job,
            outcome,
            proceed(job, Stage::EmptyEnable, OperationView::EnableAll),
        ),
        Stage::EmptyEnable => fatal(job, outcome, ProgressView::Completed),
        Stage::SetPrivilege => if !affirms(outcome) {
            ProgressView::Failed(FailureView::NotPrivileged)
        } else {
            match size_of_token(job.size_token) {
                Err(error) => ProgressView::Failed(
                    FailureView::Size { token: job.size_token, error },
                ),
                Ok(bytes) => {
                    let sized = JobView { bytes, ..job };
                    if job.replace {
                        proceed(sized, Stage::SetDisableAll, OperationView::DisableAll)
                    } else {
                        proceed(sized, Stage::SetProbe, OperationView::ProbeSwapfile)
                    }
                },
            }
        },
        Stage::SetDisableAll => fatal(
            job,
            outcome,
            proceed(job, Stage::SetProbe, OperationView::ProbeSwapfile),
        ),
        Stage::SetProbe => if affirms(outcome) {
            proceed(job, Stage::SetDisableStale, OperationView::DisableSwapfile)
        } else {
            allocation(job)
        },
        Stage::SetDisableStale => proceed(
            job,
            Stage::SetRemoveStale,
            OperationView::RemoveSwapfile,
        ),
        Stage::SetRemoveStale => fatal(job, outcome, allocation(job)),
        Stage::SetAllocate => if fault_of(outcome) is None {
            after_creation(job)
        } else {
            proceed(
                job,
                Stage::SetFill,
                OperationView::BlockFill { blocks: blocks_for(job.bytes as nat) as u64 },
            )
        },
        Stage::SetFill => fatal(job, outcome, after_creation(job)),
        Stage::SetRestrict => proceed(job, Stage::SetFormat, OperationView::FormatSwapfile),
        Stage::SetFormat => fatal(
            job,
            outcome,
            proceed(job, Stage::SetActivate, OperationView::EnableSwapfile),
        ),
        Stage::SetActivate => fatal(
            job,
            outcome,
            if job.persist {
                proceed(job, Stage::SetReadMounts, OperationView::ReadMountTable)
            } else {
                ProgressView::Completed
            },
        ),
        Stage::SetReadMounts => {
            let existing = match content_of(outcome) {
                Some(text) => text,
                None => Seq::empty(),
            };
            let line = mount_entry(swapfile_path());
            if contains(existing, line) {
                ProgressView::Completed
            } else {
                proceed(job, Stage::SetAppend, OperationView::AppendMountTable { line })
            }
        },
        Stage::SetAppend => fatal(job, outcome, ProgressView::Completed),
    }
}

fn fault(outcome: &Outcome) -> (f: Option<Fault>)
    ensures
        f == fault_of(outcome@),
{
    match outcome {
        Outcome::Done => None,
        Outcome::Exited(code) => if *code == 0 {
            None
        } else {
            Some(Fault::Exit(*code))
        },
        _ => Some(Fault::Unavailable),
    }
}

fn says_yes(outcome: &Outcome) -> (b: bool)
    ensures
        b == affirms(outcome@),
{
    match outcome {
        Outcome::Yes => true,
        _ => false,
    }
}

/// The number of blocks that hold `bytes`.
pub fn blocks_of(bytes: u64) -> (blocks: u64)
    ensures
        blocks == blocks_for(bytes as nat),
{
    let full = bytes / BLOCK_BYTES;
    if bytes % BLOCK_BYTES == 0 {
        full
    } else {
        full + 1
    }
}

impl Job {
    /// Starts an action: the job, and the first thing to do for it.
    pub fn begin(action: Action) -> (started: (Job, Operation))
        ensures
            (started.0@, started.1@) == begin_spec(action@),
    {
        match action {
            Action::Show => (
                Job {
                    stage: Stage::ReadTable,
                    size_token: String::new(),
                    replace: false,
                    persist: false,
                    bytes: 0,
                },
                Operation::ReadSwapTable,
            ),
            Action::Empty => (
                Job {
                    stage: Stage::EmptyPrivilege,
                    size_token: String::new(),
                    replace: false,
                    persist: false,
                    bytes: 0,
                },
                Operation::CheckPrivilege,
            ),
            Action::SetSwap { size_token, replace, persist } => (
                Job { stage: Stage::SetPrivilege, size_token, replace, persist, bytes: 0 },
                Operation::CheckPrivilege,
            ),
        }
    }

    fn proceed(self, stage: Stage, operation: Operation) -> (p: Progress)
        ensures
            p@ == proceed(self@, stage, operation@),
    {
        Progress::Perform { job: Job { stage, ..self }, operation }
    }

    fn fail(&self, fault: Fault) -> (p: Progress)
        ensures
            p@ == ProgressView::Failed(FailureView::Step { stage: self.stage, fault }),
    {
        Progress::Failed(Failure::Step { stage: self.stage, fault })
    }

    fn allocate(self) -> (p: Progress)
        ensures
            p@ == allocation(self@),
    {
        let size_token = self.size_token.clone();
        self.proceed(Stage::SetAllocate, Operation::FastAllocate { size_token })
    }

    fn restrict(self) -> (p: Progress)
        ensures
            p@ == after_creation(self@),
    {
        self.proceed(Stage::SetRestrict, Operation::RestrictPermissions)
    }

    /// Takes the outcome of the operation that the job awaits, and says
    /// what comes next.
    pub fn advance(self, outcome: Outcome) -> (p: Progress)
        ensures
            p@ == advance_spec(self@, outcome@),
    {
        match self.stage {
            Stage::Emit => Progress::Completed,
            Stage::ReadTable => match outcome {
                Outcome::Content(text) => match read_swap_table(text.as_str()) {
                    Some(report) => {
                        let shown = report.render();
                        self.proceed(Stage::Emit, Operation::Emit { text: shown })
                    },
                    None => Progress::Failed(Failure::TotalsOverflow),
                },
                _ => self.fail(Fault::Unavailable),
            },
            Stage::EmptyPrivilege => if says_yes(&outcome) {
                self.proceed(Stage::EmptyDisable, Operation::DisableAll)
            } else {
                Progress::Failed(Failure::NotPrivileged)
            },
            Stage::EmptyDisable => match fault(&outcome) {
                Some(f) => self.fail(f),
                None => self.proceed(Stage::EmptyEnable, Operation::EnableAll),
            },
            Stage::EmptyEnable => match fault(&outcome) {
                Some(f) => self.fail(f),
                None => Progress::Completed,
            },
            Stage::SetPrivilege => if !says_yes(&outcome) {
                Progress::Failed(Failure::NotPrivileged)
            } else {
                match parse_human_size(self.size_token.as_str()) {
                    Err(error) => Progress::Failed(
                        Failure::Size { token: self.size_token, error },
                    ),
                    Ok(bytes) => {
                        let replace = self.replace;
                        let sized = Job { bytes, ..self };
                        if replace {
                            sized.proceed(Stage::SetDisableAll, Operation::DisableAll)
                        } else {
                            sized.proceed(Stage::SetProbe, Operation::ProbeSwapfile)
                        }
                    },
                }
            },
            Stage::SetDisableAll => match fault(&outcome) {
                Some(f) => self.fail(f),
                None => self.proceed(Stage::SetProbe, Operation::ProbeSwapfile),
            },
            Stage::SetProbe => if says_yes(&outcome) {
                self.proceed(Stage::SetDisableStale, Operation::DisableSwapfile)
            } else {
                self.allocate()
            },
            Stage::SetDisableStale => self.proceed(Stage::SetRemoveStale, Operation::RemoveSwapfile),
            Stage::SetRemoveStale => match fault(&outcome) {
                Some(f) => self.fail(f),
                None => self.allocate(),
            },
            Stage::SetAllocate => match fault(&outcome) {
                None => self.restrict(),
                Some(_) => {
                    let blocks = blocks_of(self.bytes);
                    self.proceed(Stage::SetFill, Operation::BlockFill { blocks })
                },
            },
            Stage::SetFill => match fault(&outcome) {
                Some(f) => self.fail(f),
                None => self.restrict(),
            },
            Stage::SetRestrict => self.proceed(Stage::SetFormat, Operation::FormatSwapfile),
            Stage::SetFormat => match fault(&outcome) {
                Some(f) => self.fail(f),
                None => self.proceed(Stage::SetActivate, Operation::EnableSwapfile),
            },
            Stage::SetActivate => match fault(&outcome) {
                Some(f) => self.fail(f),
                None => if self.persist {
                    self.proceed(Stage::SetReadMounts, Operation::ReadMountTable)
                } else {
                    Progress::Completed
                },
            },
            Stage::SetReadMounts => {
                let existing = match outcome {
                    Outcome::Content(text) => text,
                    _ => String::new(),
                };
                match line_to_append(existing.as_str(), SWAPFILE) {
                    None => Progress::Completed,
                    Some(line) => self.proceed(
                        Stage::SetAppend,
                        Operation::AppendMountTable { line },
                    ),
                }
            },
            Stage::SetAppend => match fault(&outcome) {
                Some(f) => self.fail(f),
                None => Progress::Completed,
            },
        }
    }
}

/// Whether a stage belongs to a `set` that has read its size.
pub open spec fn past_sizing(stage: Stage) -> bool {
    !(stage is Emit || stage is ReadTable || stage is EmptyPrivilege || stage is EmptyDisable
        || stage is EmptyEnable || stage is SetPrivilege)
}

/// Whether a job knows its size: from the privilege check of a `set` on,
/// `bytes` is what the size token denotes.
pub open spec fn sized(job: JobView) -> bool {
    past_sizing(job.stage) ==> size_of_token(job.size_token) == Ok::<u64, SizeError>(job.bytes)
}

/// The place of a stage in the order of the steps.
pub open spec fn rank(stage: Stage) -> nat {
    match stage {
        Stage::ReadTable => 0,
        Stage::EmptyPrivilege => 0,
        Stage::EmptyDisable => 1,
        Stage::EmptyEnable => 2,
        Stage::SetPrivilege => 0,
        Stage::SetDisableAll => 1,
        Stage::SetProbe => 2,
        Stage::SetDisableStale => 3,
        Stage::SetRemoveStale => 4,
        Stage::SetAllocate => 5,
        Stage::SetFill => 6,
        Stage::SetRestrict => 7,
        Stage::SetFormat => 8,
        Stage::SetActivate => 9,
        Stage::SetReadMounts => 10,
        Stage::SetAppend => 11,
        Stage::Emit => 12,
    }
}

/// Whether a step must succeed for its action to go on.
pub open spec fn is_fatal(stage: Stage) -> bool {
    stage is EmptyDisable || stage is EmptyEnable || stage is SetDisableAll || stage
        is SetRemoveStale || stage is SetFill || stage is SetFormat || stage is SetActivate
        || stage is SetAppend
}

/// Whether a step is tried and its outcome passed over.
pub open spec fn is_best_effort(stage: Stage) -> bool {
    stage is SetDisableStale || stage is SetRestrict
}

/// Every job starts knowing what it must, and every step keeps it so: a
/// `set` that reaches the block fill asks for the blocks of the size that
/// its token denotes.
pub proof fn law_size_is_kept(job: JobView, outcome: OutcomeView)
    requires
        sized(job),
    ensures
        advance_spec(job, outcome) matches ProgressView::Perform { job: next, .. } ==> sized(next)
            && next.size_token == job.size_token && next.replace == job.replace && next.persist
            == job.persist,
        forall|action: ActionView| sized(#[trigger] begin_spec(action).0),
{
}

/// The steps of an action come in one order, and none comes twice: each
/// step that follows another stands later in the order.
pub proof fn law_steps_move_forward(job: JobView, outcome: OutcomeView)
    ensures
        advance_spec(job, outcome) matches ProgressView::Perform { job: next, .. } ==> rank(
            job.stage,
        ) < rank(next.stage),
{
}

/// Nothing is done for an `empty` or a `set` before the privilege has
/// been checked, and nothing after it unless the answer is yes.
pub proof fn law_privilege_comes_first(action: ActionView, outcome: OutcomeView)
    requires
        !(action is Show),
        !affirms(outcome),
    ensures
        begin_spec(action).1 == OperationView::CheckPrivilege,
        advance_spec(begin_spec(action).0, outcome) == ProgressView::Failed(
            FailureView::NotPrivileged,
        ),
{
}

/// A step that must succeed ends its action exactly when the outcome
/// reports a fault, and the failure names the step and the fault.
pub proof fn law_fatal_steps(job: JobView, outcome: OutcomeView)
    requires
        is_fatal(job.stage),
    ensures
        advance_spec(job, outcome) is Failed <==> fault_of(outcome) is Some,
        fault_of(outcome) matches Some(fault) ==> advance_spec(job, outcome)
            == ProgressView::Failed(FailureView::Step { stage: job.stage, fault }),
{
}

/// The outcome of a best-effort step changes nothing: the action goes on
/// in the same way whatever the host reports.
pub proof fn law_best_effort_steps(job: JobView, one: OutcomeView, other: OutcomeView)
    requires
        is_best_effort(job.stage),
    ensures
        advance_spec(job, one) == advance_spec(job, other),
        advance_spec(job, one) is Perform,
{
}

/// Where the swapfile cannot be allocated at once, for whatever reason,
/// the action does not fail: it falls back to filling the file with the
/// blocks that hold its size.
pub proof fn law_allocation_falls_back(job: JobView, outcome: OutcomeView)
    requires
        job.stage is SetAllocate,
        fault_of(outcome) is Some,
    ensures
        advance_spec(job, outcome) == proceed(
            job,
            Stage::SetFill,
            OperationView::BlockFill { blocks: blocks_for(job.bytes as nat) as u64 },
        ),
        (blocks_for(job.bytes as nat) - 1) * BLOCK_BYTES < job.bytes <= blocks_for(job.bytes as nat)
            * BLOCK_BYTES || job.bytes == 0 && blocks_for(0) == 0,
{
}

} // verus!
