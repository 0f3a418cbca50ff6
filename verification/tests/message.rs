use swap_manager::command::UsageError;
use swap_manager::orchestrator::{Failure, Fault, Stage};
use swap_manager::size::SizeError;

fn size(token: &str, error: SizeError) -> String {
    Failure::Size { token: token.to_string(), error }.message()
}

fn step(stage: Stage, fault: Fault) -> String {
    Failure::Step { stage, fault }.message()
}

#[test]
fn usage_errors_name_the_token() {
    assert_eq!(
        Failure::Usage(UsageError::MissingSize).message(),
        "'set' requires a size argument, e.g. 5G"
    );
    assert_eq!(
        Failure::Usage(UsageError::UnknownFlag("--force".to_string())).message(),
        "Unknown flag for 'set': --force"
    );
    assert_eq!(
        Failure::Usage(UsageError::MisplacedFlag("-v".to_string())).message(),
        "Unexpected global flag or misplaced flag: -v"
    );
    assert_eq!(
        Failure::Usage(UsageError::UnknownCommand("list".to_string())).message(),
        "Unknown command: list (expected set/show/empty)"
    );
}

#[test]
fn the_privilege_error_says_what_to_do() {
    assert_eq!(
        Failure::NotPrivileged.message(),
        "This operation requires root. Run with sudo or as root."
    );
}

#[test]
fn size_errors_name_the_token_where_it_helps() {
    assert_eq!(size("", SizeError::Empty), "empty size");
    assert_eq!(
        size("5X", SizeError::UnknownSuffix),
        "Unknown size suffix in '5X'. Use K/M/G/T or plain bytes."
    );
    assert_eq!(size("G", SizeError::MissingMagnitude), "Malformed size: G");
    assert_eq!(size("1.5G", SizeError::InvalidMagnitude), "parsing numeric part of size: 1.5G");
    assert_eq!(size("16777216T", SizeError::Overflow), "size overflow");
}

#[test]
fn a_failed_utility_is_named_with_its_status() {
    assert_eq!(step(Stage::EmptyDisable, Fault::Exit(1)), "swapoff failed: exit 1");
    assert_eq!(step(Stage::EmptyEnable, Fault::Exit(32)), "swapon failed: exit 32");
    assert_eq!(step(Stage::SetDisableAll, Fault::Exit(255)), "swapoff -a failed: exit 255");
    assert_eq!(step(Stage::SetFill, Fault::Exit(2)), "dd failed: exit 2");
    assert_eq!(step(Stage::SetFormat, Fault::Exit(10)), "mkswap failed: exit 10");
    assert_eq!(step(Stage::SetActivate, Fault::Exit(-1)), "swapon failed: exit -1");
}

#[test]
fn every_status_is_written_in_full() {
    assert_eq!(step(Stage::SetFill, Fault::Exit(0)), "dd failed: exit 0");
    assert_eq!(step(Stage::SetFill, Fault::Exit(i32::MAX)), "dd failed: exit 2147483647");
    assert_eq!(step(Stage::SetFill, Fault::Exit(i32::MIN)), "dd failed: exit -2147483648");
    for code in [-300, -10, -9, -1, 1, 9, 10, 99, 100, 12345] {
        assert_eq!(step(Stage::SetFill, Fault::Exit(code)), format!("dd failed: exit {}", code));
    }
}

#[test]
fn a_step_that_could_not_be_done_is_named() {
    assert_eq!(
        step(Stage::ReadTable, Fault::Unavailable),
        "reading /proc/swaps could not be done"
    );
    assert_eq!(
        step(Stage::SetRemoveStale, Fault::Unavailable),
        "removing existing swapfile could not be done"
    );
    assert_eq!(
        step(Stage::SetAppend, Fault::Unavailable),
        "writing to /etc/fstab could not be done"
    );
    assert_eq!(step(Stage::SetFormat, Fault::Unavailable), "mkswap could not be done");
}

#[test]
fn an_overflow_of_the_totals_is_named() {
    assert_eq!(Failure::TotalsOverflow.message(), "swap totals overflow");
}
