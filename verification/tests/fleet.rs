use diskwipe::cli::parse_args;
use diskwipe::control::{Action, Event};
use diskwipe::fleet::{requests_for, FleetReport};
use diskwipe::machine::DeviceWipe;
use diskwipe::outcome::{IoReason, PreconditionReason, Verification, WipeOutcome};
use diskwipe::pattern::Pattern;

fn args(list: &[&str]) -> Vec<String> {
    list.iter().map(|s| s.to_string()).collect()
}

/// Answers `action` as a sound device of `total` bytes that holds `image`.
fn answer<'a>(action: Action, mounted: bool, total: u64, image: &'a [u8]) -> Event<'a> {
    match action {
        Action::QueryUsage => Event::Usage { mounted, in_use: false },
        Action::Open => Event::Opened { total_bytes: total },
        Action::Write { .. } => Event::Written,
        Action::Flush => Event::Flushed,
        Action::Rewind => Event::Rewound,
        Action::Read { offset, len } => Event::Chunk(&image[offset as usize..offset as usize + len]),
        Action::Finish { .. } => Event::Rewound,
    }
}

#[test]
fn one_request_per_device_in_order() {
    let config = parse_args(&args(&["--random", "--passes", "4", "--verify", "a", "b", "c"])).unwrap();
    let requests = requests_for(&config);
    assert_eq!(requests.len(), 3);
    for (i, name) in ["a", "b", "c"].iter().enumerate() {
        assert_eq!(requests[i].device_path(), name);
        assert_eq!(requests[i].pattern(), Pattern::Random);
        assert_eq!(requests[i].pass_count(), 4);
        assert!(requests[i].verify());
    }
}

#[test]
fn failure_of_one_device_leaves_the_other_alone() {
    let config = parse_args(&args(&["--verify", "A", "B"])).unwrap();
    let mut requests = requests_for(&config);
    let mut report = FleetReport::new(&requests);
    let b = DeviceWipe::new(requests.pop().unwrap(), 16).unwrap();
    let a = DeviceWipe::new(requests.pop().unwrap(), 16).unwrap();
    let mut wipes = [a, b];
    let mounted = [true, false];
    let image = [0u8; 40];
    let mut writes = [0usize, 0usize];
    let mut turn = 0;
    while !report.is_complete() {
        let i = turn % 2;
        turn += 1;
        match wipes[i].pending() {
            Action::Finish { outcome, .. } => {
                report.record(i, outcome);
            }
            action => {
                if let Action::Write { .. } = action {
                    writes[i] += 1;
                }
                wipes[i].step(answer(action, mounted[i], 40, &image));
            }
        }
    }
    assert_eq!(report.len(), 2);
    assert_eq!(report.path(0), "A");
    assert_eq!(report.path(1), "B");
    assert_eq!(
        report.outcome(0),
        Some(WipeOutcome::PreconditionFailed(PreconditionReason::Mounted))
    );
    assert_eq!(report.outcome(1), Some(WipeOutcome::Success));
    assert_eq!(wipes[1].verification(), Verification::Confirmed);
    assert_eq!(writes, [0, 3]);
    assert!(!report.succeeded());
    assert_eq!(report.exit_code(), 1);
}

#[test]
fn report_starts_empty() {
    let config = parse_args(&args(&["a", "b"])).unwrap();
    let report = FleetReport::new(&requests_for(&config));
    assert_eq!(report.len(), 2);
    assert_eq!(report.outcome(0), None);
    assert_eq!(report.outcome(1), None);
    assert_eq!(report.outcome(2), None);
    assert!(!report.is_complete());
    assert!(!report.succeeded());
    assert_eq!(report.exit_code(), 1);
}

#[test]
fn outcome_is_recorded_once() {
    let config = parse_args(&args(&["a", "b"])).unwrap();
    let mut report = FleetReport::new(&requests_for(&config));
    assert!(report.record(1, WipeOutcome::IoFailure(IoReason::WorkerAborted)));
    assert!(!report.record(1, WipeOutcome::Success));
    assert_eq!(report.outcome(1), Some(WipeOutcome::IoFailure(IoReason::WorkerAborted)));
    assert_eq!(report.outcome(0), None);
    assert!(!report.record(2, WipeOutcome::Success));
    assert_eq!(report.len(), 2);
    assert!(!report.is_complete());
    assert!(report.record(0, WipeOutcome::Success));
    assert!(report.is_complete());
    assert_eq!(report.path(0), "a");
    assert_eq!(report.path(1), "b");
}

#[test]
fn order_of_recording_makes_no_difference() {
    let config = parse_args(&args(&["a", "b"])).unwrap();
    let mut first = FleetReport::new(&requests_for(&config));
    first.record(0, WipeOutcome::VerificationFailed(1048576));
    first.record(1, WipeOutcome::Success);
    let mut second = FleetReport::new(&requests_for(&config));
    second.record(1, WipeOutcome::Success);
    second.record(0, WipeOutcome::VerificationFailed(1048576));
    for i in 0..2 {
        assert_eq!(first.outcome(i), second.outcome(i));
    }
    assert_eq!(first.outcome(0), Some(WipeOutcome::VerificationFailed(1048576)));
    assert_eq!(first.outcome(1), Some(WipeOutcome::Success));
}

#[test]
fn exit_code_is_zero_only_if_all_succeeded() {
    let config = parse_args(&args(&["a", "b", "c"])).unwrap();
    let mut report = FleetReport::new(&requests_for(&config));
    report.record(0, WipeOutcome::Success);
    report.record(1, WipeOutcome::Success);
    assert_eq!(report.exit_code(), 1);
    report.record(2, WipeOutcome::Success);
    assert!(report.succeeded());
    assert_eq!(report.exit_code(), 0);

    let mut report = FleetReport::new(&requests_for(&config));
    report.record(0, WipeOutcome::Success);
    report.record(1, WipeOutcome::VerificationFailed(0));
    report.record(2, WipeOutcome::Success);
    assert!(report.is_complete());
    assert!(!report.succeeded());
    assert_eq!(report.exit_code(), 1);
}
