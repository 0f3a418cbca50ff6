use vstd::prelude::*;
use crate::command::{UsageError, UsageErrorView};
use crate::human::{decimal_digits, push_decimal};
use crate::orchestrator::{Failure, FailureView, Fault, Stage};
use crate::size::SizeError;
use crate::text::push_char;

verus! {

/// An integer written in base ten, with a minus sign where it is below
/// zero.
pub open spec fn signed_digits(n: int) -> Seq<char> {
    if n < 0 {
        seq!['-'] + decimal_digits((-n) as nat)
    } else {
        decimal_digits(n as nat)
    }
}

/// The name under which a step is reported: that of the utility it runs,
/// or of what it does to a file.
pub open spec fn step_label(stage: Stage) -> Seq<char> {
    match stage {
        Stage::Emit => "writing the output"@,
        Stage::ReadTable => "reading /proc/swaps"@,
        Stage::EmptyPrivilege => "checking the privilege"@,
        Stage::EmptyDisable => "swapoff"@,
        Stage::EmptyEnable => "swapon"@,
        Stage::SetPrivilege => "checking the privilege"@,
        Stage::SetDisableAll => "swapoff -a"@,
        Stage::SetProbe => "looking for the swapfile"@,
        Stage::SetDisableStale => "swapoff"@,
        Stage::SetRemoveStale => "removing existing swapfile"@,
        Stage::SetAllocate => "fallocate"@,
        Stage::SetFill => "dd"@,
        Stage::SetRestrict => "chmod"@,
        Stage::SetFormat => "mkswap"@,
        Stage::SetActivate => "swapon"@,
        Stage::SetReadMounts => "reading /etc/fstab"@,
        Stage::SetAppend => "writing to /etc/fstab"@,
    }
}

/// What the operator is told of a token sequence that is no chain of
/// actions.
pub open spec fn usage_text(error: UsageErrorView) -> Seq<char> {
    match error {
        UsageErrorView::MissingSize => "'set' requires a size argument, e.g. 5G"@,
        UsageErrorView::UnknownFlag(flag) => "Unknown flag for 'set': "@ + flag,
        UsageErrorView::MisplacedFlag(flag) => "Unexpected global flag or misplaced flag: "@ + flag,
        UsageErrorView::UnknownCommand(word) => "Unknown command: "@ + word
            + " (expected set/show/empty)"@,
    }
}

/// What the operator is told of a size token that is no size.
pub open spec fn size_text(token: Seq<char>, error: SizeError) -> Seq<char> {
    match error {
        SizeError::Empty => "empty size"@,
        SizeError::UnknownSuffix => "Unknown size suffix in '"@ + token
            + "'. Use K/M/G/T or plain bytes."@,
        SizeError::MissingMagnitude => "Malformed size: "@ + token,
        SizeError::InvalidMagnitude => "parsing numeric part of size: "@ + token,
        SizeError::Overflow => "size overflow"@,
    }
}

/// What the operator is told of a run that has failed: which step it was
/// and, where a utility ended with a status, the status.
pub open spec fn failure_text(failure: FailureView) -> Seq<char> {
    match failure {
        FailureView::Usage(error) => usage_text(error),
        FailureView::NotPrivileged => "This operation requires root. Run with sudo or as root."@,
        FailureView::Size { token, error } => size_text(token, error),
        FailureView::Step { stage, fault } => match fault {
            Fault::Exit(code) => step_label(stage) + " failed: exit "@ + signed_digits(code as int),
            Fault::Unavailable => step_label(stage) + " could not be done"@,
        },
        FailureView::TotalsOverflow => "swap totals overflow"@,
    }
}

fn label_of(stage: Stage) -> (label: &'static str)
    ensures
        label@ == step_label(stage),
{
    match stage {
        Stage::Emit => "writing the output",
        Stage::ReadTable => "reading /proc/swaps",
        Stage::EmptyPrivilege => "checking the privilege",
        Stage::EmptyDisable => "swapoff",
        Stage::EmptyEnable => "swapon",
        Stage::SetPrivilege => "checking the privilege",
        Stage::SetDisableAll => "swapoff -a",
        Stage::SetProbe => "looking for the swapfile",
        Stage::SetDisableStale => "swapoff",
        Stage::SetRemoveStale => "removing existing swapfile",
        Stage::SetAllocate => "fallocate",
        Stage::SetFill => "dd",
        Stage::SetRestrict => "chmod",
        Stage::SetFormat => "mkswap",
        Stage::SetActivate => "swapon",
        Stage::SetReadMounts => "reading /etc/fstab",
        Stage::SetAppend => "writing to /etc/fstab",
    }
}

fn push_signed(out: &mut String, n: i32)
    ensures
        final(out)@ == old(out)@ + signed_digits(n as int),
{
    if n < 0 {
        push_char(out, '-');
        push_decimal(out, (-(n as i64)) as u64);
    } else {
        push_decimal(out, n as u64);
    }
}

fn usage_message(error: &UsageError) -> (text: String)
    ensures
        text@ == usage_text(error@),
{
    match error {
        UsageError::MissingSize => String::from_str("'set' requires a size argument, e.g. 5G"),
        UsageError::UnknownFlag(flag) => String::from_str("Unknown flag for 'set': ").concat(
            flag.as_str(),
        ),
        UsageError::MisplacedFlag(flag) => String::from_str(
            "Unexpected global flag or misplaced flag: ",
        ).concat(flag.as_str()),
        UsageError::UnknownCommand(word) => String::from_str("Unknown command: ").concat(
            word.as_str(),
        ).concat(" (expected set/show/empty)"),
    }
}

fn size_message(token: &str, error: SizeError) -> (text: String)
    ensures
        text@ == size_text(token@, error),
{
    match error {
        SizeError::Empty => String::from_str("empty size"),
        SizeError::UnknownSuffix => String::from_str("Unknown size suffix in '").concat(
            token,
        ).concat("'. Use K/M/G/T or plain bytes."),
        SizeError::MissingMagnitude => String::from_str("Malformed size: ").concat(token),
        SizeError::InvalidMagnitude => String::from_str("parsing numeric part of size: ").concat(
            token,
        ),
        SizeError::Overflow => String::from_str("size overflow"),
    }
}

impl Failure {
    /// The failure in words, for the operator.
    pub fn message(&self) -> (text: String)
        ensures
            text@ == failure_text(self@),
    {
        match self {
            Failure::Usage(error) => usage_message(error),
            Failure::NotPrivileged => String::from_str(
                "This operation requires root. Run with sudo or as root.",
            ),
            Failure::Size { token, error } => size_message(token.as_str(), *error),
            Failure::Step { stage, fault } => {
                let mut text = String::from_str(label_of(*stage));
                match fault {
                    Fault::Exit(code) => {
                        text.append(" failed: exit ");
                        push_signed(&mut text, *code);
                    },
                    Fault::Unavailable => {
                        text.append(" could not be done");
                    },
                }
                text
            },
            Failure::TotalsOverflow => String::from_str("swap totals overflow"),
        }
    }
}

} // verus!
