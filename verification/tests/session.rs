use swap_manager::command::UsageError;
use swap_manager::orchestrator::{
    blocks_of, Failure, Fault, Job, Operation, Outcome, Progress, Stage,
};
use swap_manager::session::{Session, Step};
use swap_manager::size::SizeError;

const ENTRY: &str = "/swap-manager.swap none swap sw 0 0\n";

/// A host that answers from a script, and writes down what it was asked.
struct Host {
    root: bool,
    swapfile: bool,
    fast_allocation: Outcome,
    failing: Option<(Operation, Outcome)>,
    swap_table: Option<String>,
    mount_table: Option<String>,
    asked: Vec<Operation>,
    shown: String,
}

fn host() -> Host {
    Host {
        root: true,
        swapfile: false,
        fast_allocation: Outcome::Done,
        failing: None,
        swap_table: Some("Filename Type Size Used Priority\n".to_string()),
        mount_table: Some(String::new()),
        asked: Vec::new(),
        shown: String::new(),
    }
}

fn yes_or_no(b: bool) -> Outcome {
    if b {
        Outcome::Yes
    } else {
        Outcome::No
    }
}

fn perform(host: &mut Host, operation: &Operation) -> Outcome {
    host.asked.push(operation.clone());
    if let Some((failing, outcome)) = &host.failing {
        if failing == operation {
            return outcome.clone();
        }
    }
    match operation {
        Operation::Emit { text } => {
            host.shown.push_str(text);
            Outcome::Done
        }
        Operation::ReadSwapTable => match &host.swap_table {
            Some(text) => Outcome::Content(text.clone()),
            None => Outcome::Unavailable,
        },
        Operation::CheckPrivilege => yes_or_no(host.root),
        Operation::ProbeSwapfile => yes_or_no(host.swapfile),
        Operation::RemoveSwapfile => {
            host.swapfile = false;
            Outcome::Done
        }
        Operation::FastAllocate { .. } => host.fast_allocation.clone(),
        Operation::ReadMountTable => match &host.mount_table {
            Some(text) => Outcome::Content(text.clone()),
            None => Outcome::Unavailable,
        },
        Operation::AppendMountTable { line } => {
            let mut table = host.mount_table.take().unwrap_or_default();
            table.push_str(line);
            host.mount_table = Some(table);
            Outcome::Done
        }
        _ => Outcome::Exited(0),
    }
}

fn run(words: &[&str], host: &mut Host) -> Result<(), Failure> {
    let mut step = Session::open(words.iter().map(|w| w.to_string()).collect());
    loop {
        match step {
            Step::Finished => return Ok(()),
            Step::Failed(failure) => return Err(failure),
            Step::Perform { session, operation } => {
                let outcome = perform(host, &operation);
                step = session.resume(outcome);
            }
        }
    }
}

fn fast(size: &str) -> Operation {
    Operation::FastAllocate { size_token: size.to_string() }
}

#[test]
fn no_tokens_give_the_usage_hint_and_nothing_else() {
    let mut h = host();
    assert_eq!(run(&[], &mut h), Ok(()));
    assert_eq!(
        h.asked,
        vec![Operation::Emit { text: "No actions provided. Try: swap-manager --help\n".to_string() }]
    );
}

#[test]
fn a_bad_size_stops_the_chain_before_show() {
    let mut h = host();
    assert_eq!(
        run(&["set", "bad", "show"], &mut h),
        Err(Failure::Size { token: "bad".to_string(), error: SizeError::UnknownSuffix })
    );
    assert_eq!(h.asked, vec![Operation::CheckPrivilege]);
    assert_eq!(h.shown, "");
}

#[test]
fn a_bad_size_without_privilege_fails_on_the_privilege() {
    let mut h = host();
    h.root = false;
    assert_eq!(run(&["set", "bad", "show"], &mut h), Err(Failure::NotPrivileged));
    assert_eq!(h.asked, vec![Operation::CheckPrivilege]);
}

#[test]
fn show_reads_the_table_and_emits_the_report() {
    let mut h = host();
    h.swap_table = Some(
        "Filename\tType\tSize\tUsed\tPriority\n/swapfile file 1048576 0 -2\n".to_string(),
    );
    assert_eq!(run(&["show"], &mut h), Ok(()));
    assert_eq!(h.asked.len(), 2);
    assert_eq!(h.asked[0], Operation::ReadSwapTable);
    assert_eq!(
        h.shown,
        "Filename\tType\tSize\tUsed\tPriority\n/swapfile file 1048576 0 -2\n\nTotal: 0 B used / 1.00 GiB total\n"
    );
}

#[test]
fn show_needs_no_privilege() {
    let mut h = host();
    h.root = false;
    assert_eq!(run(&["show", "show"], &mut h), Ok(()));
    assert!(!h.asked.contains(&Operation::CheckPrivilege));
}

#[test]
fn show_fails_where_the_table_cannot_be_read() {
    let mut h = host();
    h.swap_table = None;
    assert_eq!(
        run(&["show", "empty"], &mut h),
        Err(Failure::Step { stage: Stage::ReadTable, fault: Fault::Unavailable })
    );
    assert_eq!(h.asked, vec![Operation::ReadSwapTable]);
}

#[test]
fn show_fails_where_the_totals_overflow() {
    let mut h = host();
    h.swap_table = Some("h\na b 18014398509481984 0 0\n".to_string());
    assert_eq!(run(&["show"], &mut h), Err(Failure::TotalsOverflow));
    assert_eq!(h.shown, "");
}

#[test]
fn empty_cycles_swap_off_and_on() {
    let mut h = host();
    assert_eq!(run(&["empty"], &mut h), Ok(()));
    assert_eq!(
        h.asked,
        vec![Operation::CheckPrivilege, Operation::DisableAll, Operation::EnableAll]
    );
}

#[test]
fn empty_needs_root() {
    let mut h = host();
    h.root = false;
    assert_eq!(run(&["empty", "show"], &mut h), Err(Failure::NotPrivileged));
    assert_eq!(h.asked, vec![Operation::CheckPrivilege]);
}

#[test]
fn empty_stops_where_disabling_fails() {
    let mut h = host();
    h.failing = Some((Operation::DisableAll, Outcome::Exited(3)));
    assert_eq!(
        run(&["empty"], &mut h),
        Err(Failure::Step { stage: Stage::EmptyDisable, fault: Fault::Exit(3) })
    );
    assert_eq!(h.asked, vec![Operation::CheckPrivilege, Operation::DisableAll]);
}

#[test]
fn empty_stops_where_enabling_fails() {
    let mut h = host();
    h.failing = Some((Operation::EnableAll, Outcome::Unavailable));
    assert_eq!(
        run(&["empty", "show"], &mut h),
        Err(Failure::Step { stage: Stage::EmptyEnable, fault: Fault::Unavailable })
    );
    assert_eq!(
        h.asked,
        vec![Operation::CheckPrivilege, Operation::DisableAll, Operation::EnableAll]
    );
}

#[test]
fn a_plain_set_allocates_formats_and_enables() {
    let mut h = host();
    assert_eq!(run(&["set", "5G"], &mut h), Ok(()));
    assert_eq!(
        h.asked,
        vec![
            Operation::CheckPrivilege,
            Operation::ProbeSwapfile,
            fast("5G"),
            Operation::RestrictPermissions,
            Operation::FormatSwapfile,
            Operation::EnableSwapfile,
        ]
    );
}

#[test]
fn set_with_both_flags_over_an_old_swapfile() {
    let mut h = host();
    h.swapfile = true;
    h.mount_table = Some("UUID=1 / ext4 defaults 0 1\n".to_string());
    assert_eq!(run(&["set", "512m", "--replace", "--persist"], &mut h), Ok(()));
    assert_eq!(
        h.asked,
        vec![
            Operation::CheckPrivilege,
            Operation::DisableAll,
            Operation::ProbeSwapfile,
            Operation::DisableSwapfile,
            Operation::RemoveSwapfile,
            fast("512m"),
            Operation::RestrictPermissions,
            Operation::FormatSwapfile,
            Operation::EnableSwapfile,
            Operation::ReadMountTable,
            Operation::AppendMountTable { line: ENTRY.to_string() },
        ]
    );
    assert_eq!(h.mount_table, Some(format!("UUID=1 / ext4 defaults 0 1\n{}", ENTRY)));
}

#[test]
fn set_needs_root() {
    let mut h = host();
    h.root = false;
    assert_eq!(run(&["set", "5G", "--replace"], &mut h), Err(Failure::NotPrivileged));
    assert_eq!(h.asked, vec![Operation::CheckPrivilege]);
}

#[test]
fn set_reports_each_fault_of_its_size() {
    for (token, fault) in [
        ("", SizeError::Empty),
        ("5X", SizeError::UnknownSuffix),
        ("G", SizeError::MissingMagnitude),
        ("1.5G", SizeError::InvalidMagnitude),
        ("16777216T", SizeError::Overflow),
    ] {
        let mut h = host();
        assert_eq!(
            run(&["set", token], &mut h),
            Err(Failure::Size { token: token.to_string(), error: fault })
        );
        assert_eq!(h.asked, vec![Operation::CheckPrivilege]);
    }
}

#[test]
fn set_stops_where_replacing_fails() {
    let mut h = host();
    h.failing = Some((Operation::DisableAll, Outcome::Exited(255)));
    assert_eq!(
        run(&["set", "1G", "--replace"], &mut h),
        Err(Failure::Step { stage: Stage::SetDisableAll, fault: Fault::Exit(255) })
    );
    assert_eq!(h.asked, vec![Operation::CheckPrivilege, Operation::DisableAll]);
}

#[test]
fn disabling_the_old_swapfile_may_fail() {
    let mut h = host();
    h.swapfile = true;
    h.failing = Some((Operation::DisableSwapfile, Outcome::Exited(1)));
    assert_eq!(run(&["set", "1G"], &mut h), Ok(()));
    assert!(h.asked.contains(&Operation::RemoveSwapfile));
    assert!(h.asked.contains(&Operation::EnableSwapfile));
}

#[test]
fn deleting_the_old_swapfile_must_not_fail() {
    let mut h = host();
    h.swapfile = true;
    h.failing = Some((Operation::RemoveSwapfile, Outcome::Unavailable));
    assert_eq!(
        run(&["set", "1G"], &mut h),
        Err(Failure::Step { stage: Stage::SetRemoveStale, fault: Fault::Unavailable })
    );
    assert_eq!(h.asked.last(), Some(&Operation::RemoveSwapfile));
}

#[test]
fn a_failed_allocation_falls_back_to_filling_blocks() {
    for outcome in [Outcome::Exited(1), Outcome::Unavailable] {
        let mut h = host();
        h.fast_allocation = outcome;
        assert_eq!(run(&["set", "5G"], &mut h), Ok(()));
        assert_eq!(
            h.asked,
            vec![
                Operation::CheckPrivilege,
                Operation::ProbeSwapfile,
                fast("5G"),
                Operation::BlockFill { blocks: 5120 },
                Operation::RestrictPermissions,
                Operation::FormatSwapfile,
                Operation::EnableSwapfile,
            ]
        );
    }
}

#[test]
fn the_blocks_are_the_size_in_mib_rounded_up() {
    assert_eq!(blocks_of(0), 0);
    assert_eq!(blocks_of(1), 1);
    assert_eq!(blocks_of(1_048_575), 1);
    assert_eq!(blocks_of(1_048_576), 1);
    assert_eq!(blocks_of(1_048_577), 2);
    assert_eq!(blocks_of(5 * 1_073_741_824), 5120);
    assert_eq!(blocks_of(u64::MAX), 17_592_186_044_416);
    for (token, blocks) in [("1", 1), ("1048577", 2), ("3M", 3), ("0", 0)] {
        let mut h = host();
        h.fast_allocation = Outcome::Unavailable;
        assert_eq!(run(&["set", token], &mut h), Ok(()));
        assert!(h.asked.contains(&Operation::BlockFill { blocks }));
    }
}

#[test]
fn filling_blocks_must_not_fail() {
    let mut h = host();
    h.fast_allocation = Outcome::Exited(1);
    h.failing = Some((Operation::BlockFill { blocks: 1024 }, Outcome::Exited(2)));
    assert_eq!(
        run(&["set", "1G", "show"], &mut h),
        Err(Failure::Step { stage: Stage::SetFill, fault: Fault::Exit(2) })
    );
    assert_eq!(h.asked.last(), Some(&Operation::BlockFill { blocks: 1024 }));
}

#[test]
fn restricting_the_mode_may_fail() {
    let mut h = host();
    h.failing = Some((Operation::RestrictPermissions, Outcome::Unavailable));
    assert_eq!(run(&["set", "1G"], &mut h), Ok(()));
    assert_eq!(h.asked.last(), Some(&Operation::EnableSwapfile));
}

#[test]
fn formatting_must_not_fail() {
    let mut h = host();
    h.failing = Some((Operation::FormatSwapfile, Outcome::Exited(1)));
    assert_eq!(
        run(&["set", "1G", "--persist"], &mut h),
        Err(Failure::Step { stage: Stage::SetFormat, fault: Fault::Exit(1) })
    );
    assert_eq!(h.asked.last(), Some(&Operation::FormatSwapfile));
}

#[test]
fn enabling_must_not_fail() {
    let mut h = host();
    h.failing = Some((Operation::EnableSwapfile, Outcome::Exited(-1)));
    assert_eq!(
        run(&["set", "1G", "--persist"], &mut h),
        Err(Failure::Step { stage: Stage::SetActivate, fault: Fault::Exit(-1) })
    );
    assert_eq!(h.mount_table, Some(String::new()));
}

#[test]
fn persisting_twice_records_the_entry_once() {
    let mut h = host();
    assert_eq!(run(&["set", "1G", "--persist", "set", "1G", "--persist"], &mut h), Ok(()));
    assert_eq!(h.mount_table, Some(ENTRY.to_string()));
    let appends = h.asked.iter().filter(|o| matches!(o, Operation::AppendMountTable { .. })).count();
    assert_eq!(appends, 1);
}

#[test]
fn a_mount_table_that_cannot_be_read_counts_as_empty() {
    let mut h = host();
    h.mount_table = None;
    assert_eq!(run(&["set", "1G", "--persist"], &mut h), Ok(()));
    assert_eq!(h.asked.last(), Some(&Operation::AppendMountTable { line: ENTRY.to_string() }));
}

#[test]
fn appending_must_not_fail() {
    let mut h = host();
    h.failing =
        Some((Operation::AppendMountTable { line: ENTRY.to_string() }, Outcome::Unavailable));
    assert_eq!(
        run(&["set", "1G", "--persist", "show"], &mut h),
        Err(Failure::Step { stage: Stage::SetAppend, fault: Fault::Unavailable })
    );
    assert_eq!(h.shown, "");
}

#[test]
fn actions_run_in_the_order_of_the_tokens() {
    let mut h = host();
    assert_eq!(run(&["set", "1G", "--replace", "show", "empty"], &mut h), Ok(()));
    let kinds: Vec<bool> = h.asked.iter().map(|o| *o == Operation::CheckPrivilege).collect();
    assert_eq!(kinds.iter().filter(|k| **k).count(), 2);
    assert_eq!(h.asked[0], Operation::CheckPrivilege);
    assert_eq!(h.asked[h.asked.len() - 1], Operation::EnableAll);
    assert!(h.shown.ends_with("Total: 0 B used / 0 B total\n"));
}

#[test]
fn what_was_done_before_a_usage_error_stays_done() {
    let mut h = host();
    assert_eq!(
        run(&["show", "list", "empty"], &mut h),
        Err(Failure::Usage(UsageError::UnknownCommand("list".to_string())))
    );
    assert_eq!(h.asked.len(), 2);
    assert!(!h.shown.is_empty());
}

#[test]
fn an_unknown_flag_stops_set_before_any_step() {
    let mut h = host();
    assert_eq!(
        run(&["set", "1G", "--force"], &mut h),
        Err(Failure::Usage(UsageError::UnknownFlag("--force".to_string())))
    );
    assert!(h.asked.is_empty());
}

#[test]
fn each_usage_error_ends_the_run() {
    let mut h = host();
    assert_eq!(run(&["set"], &mut h), Err(Failure::Usage(UsageError::MissingSize)));
    assert_eq!(
        run(&["-v"], &mut h),
        Err(Failure::Usage(UsageError::MisplacedFlag("-v".to_string())))
    );
    assert!(h.asked.is_empty());
}

#[test]
fn a_status_of_zero_counts_as_done() {
    let (job, first) = Job::begin(swap_manager::command::Action::Empty);
    assert_eq!(first, Operation::CheckPrivilege);
    let job = match job.advance(Outcome::Yes) {
        Progress::Perform { job, operation } => {
            assert_eq!(operation, Operation::DisableAll);
            job
        }
        other => panic!("{:?}", other),
    };
    assert!(matches!(
        job.clone().advance(Outcome::Exited(0)),
        Progress::Perform { operation: Operation::EnableAll, .. }
    ));
    assert!(matches!(
        job.clone().advance(Outcome::Done),
        Progress::Perform { operation: Operation::EnableAll, .. }
    ));
    assert_eq!(
        job.advance(Outcome::Yes),
        Progress::Failed(Failure::Step { stage: Stage::EmptyDisable, fault: Fault::Unavailable })
    );
}

#[test]
fn only_yes_grants_the_privilege() {
    for outcome in [Outcome::No, Outcome::Done, Outcome::Exited(0), Outcome::Unavailable] {
        let (job, _) = Job::begin(swap_manager::command::Action::Empty);
        assert_eq!(job.advance(outcome), Progress::Failed(Failure::NotPrivileged));
    }
}
