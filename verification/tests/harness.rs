use seeker::classify_probe;
use seeker::exit_code;
use seeker::parse_target;
use seeker::seeker_step;
use seeker::writer_step;
use seeker::HarnessOutcome;
use seeker::ProbeOutcome;
use seeker::SeekerState;
use seeker::SeekerStep;
use seeker::WriteResult;
use seeker::WriterState;
use seeker::WriterStep;
use seeker::NO_DATA_ERRNO;
use seeker::WRITER_STEPS;

#[test]
fn classify_success_offset() {
    assert_eq!(classify_probe(0, 0), ProbeOutcome::DataAt { offset: 0 });
    assert_eq!(classify_probe(131072, 0), ProbeOutcome::DataAt { offset: 131072 });
}

#[test]
fn classify_no_data() {
    assert_eq!(classify_probe(-1, NO_DATA_ERRNO), ProbeOutcome::NoDataFromHere);
}

#[test]
fn classify_unexpected_errno() {
    assert_eq!(classify_probe(-1, 22), ProbeOutcome::Unexpected { errno: 22 });
    assert_eq!(classify_probe(-1, 0), ProbeOutcome::Unexpected { errno: 0 });
}

#[test]
fn seeker_counts_empty_probes() {
    // While the file is empty every probe reports "no data from here" and
    // the seeker keeps polling, counting one attempt per probe.
    let mut state = SeekerState { attempts: 0 };
    for expected in 1..=5u64 {
        match seeker_step(state, classify_probe(-1, NO_DATA_ERRNO)) {
            SeekerStep::Continue { state: next } => {
                assert_eq!(next.attempts, expected);
                state = next;
            }
            other => panic!("seeker left polling on an empty probe: {other:?}"),
        }
    }
}

#[test]
fn seeker_finds_first_data_at_zero() {
    // The file started empty, so the first appended byte lands at offset
    // zero and the probe that sees it reports exactly that offset.
    let mut state = SeekerState { attempts: 0 };
    for _ in 0..3 {
        match seeker_step(state, ProbeOutcome::NoDataFromHere) {
            SeekerStep::Continue { state: next } => state = next,
            other => panic!("unexpected step {other:?}"),
        }
    }
    let step = seeker_step(state, classify_probe(0, 0));
    assert_eq!(step, SeekerStep::Found { attempts: 3, offset: 0 });
}

#[test]
fn seeker_fatal_on_first_unexpected_probe() {
    // An unexpected errno on the very first probe is fatal at once and
    // carries the code through; the harness exits with status one.
    let state = SeekerState { attempts: 0 };
    let step = seeker_step(state, classify_probe(-1, 5));
    assert_eq!(step, SeekerStep::Fatal { errno: 5 });
    assert_eq!(exit_code(HarnessOutcome::SeekerFatal), 1);
}

#[test]
fn writer_offsets_increase_one_per_write() {
    // Each successful one-byte write logs the next offset: 0, 1, 2, ...
    // with no repeats.
    let mut state = WriterState { next_offset: 0 };
    let mut logged = Vec::new();
    for _ in 0..4 {
        match writer_step(state, WriteResult::Wrote { size: 1 }) {
            WriterStep::Advance { logged_offset, state: next } => {
                logged.push(logged_offset);
                state = next;
            }
            other => panic!("unexpected step {other:?}"),
        }
    }
    assert_eq!(logged, vec![0, 1, 2, 3]);
    for w in logged.windows(2) {
        assert!(w[0] < w[1]);
    }
}

#[test]
fn writer_fatal_on_wrong_size() {
    let state = WriterState { next_offset: 9 };
    assert_eq!(
        writer_step(state, WriteResult::Wrote { size: 0 }),
        WriterStep::FatalSize { size: 0 }
    );
    assert_eq!(
        writer_step(state, WriteResult::Wrote { size: 2 }),
        WriterStep::FatalSize { size: 2 }
    );
}

#[test]
fn writer_fatal_on_write_error() {
    let state = WriterState { next_offset: 0 };
    assert_eq!(writer_step(state, WriteResult::Failed), WriterStep::FatalWrite);
}

#[test]
fn writer_step_bound_spans_two_extents() {
    assert_eq!(WRITER_STEPS, 2 * 128 * 1024 + 2);
}

#[test]
fn exit_codes() {
    assert_eq!(exit_code(HarnessOutcome::SeekerFound), 0);
    assert_eq!(exit_code(HarnessOutcome::WriterExhausted), 0);
    assert_eq!(exit_code(HarnessOutcome::SeekerFatal), 1);
    assert_eq!(exit_code(HarnessOutcome::WriterFatal), 1);
    assert_eq!(exit_code(HarnessOutcome::UsageError), 1);
    assert_eq!(exit_code(HarnessOutcome::SetupError), 1);
}

#[test]
fn two_arguments_are_a_usage_error() {
    // No file may be touched on a usage error: the caller gets no path
    // back at all, and the outcome exits with status one.
    let args = vec![String::from("a"), String::from("b")];
    assert_eq!(parse_target(&args), None);
    assert_eq!(exit_code(HarnessOutcome::UsageError), 1);
}

#[test]
fn zero_arguments_are_a_usage_error() {
    let args: Vec<String> = Vec::new();
    assert_eq!(parse_target(&args), None);
}

#[test]
fn empty_argument_is_a_usage_error() {
    let args = vec![String::new()];
    assert_eq!(parse_target(&args), None);
}

#[test]
fn flag_like_argument_is_a_usage_error() {
    let args = vec![String::from("-h")];
    assert_eq!(parse_target(&args), None);
}

#[test]
fn single_path_argument_is_accepted() {
    let args = vec![String::from("/tmp/datafile")];
    assert_eq!(parse_target(&args), Some(String::from("/tmp/datafile")));
}

#[test]
fn found_wins_the_race() {
    // The intended run: the writer appends its first byte at offset zero,
    // the seeker's next probe sees it, the harness exits zero.
    let writer = WriterState { next_offset: 0 };
    let step = writer_step(writer, WriteResult::Wrote { size: 1 });
    let WriterStep::Advance { logged_offset, .. } = step else {
        panic!("first write should advance");
    };
    assert_eq!(logged_offset, 0);

    let seeker = SeekerState { attempts: 0 };
    let probe = classify_probe(logged_offset as i64, 0);
    let step = seeker_step(seeker, probe);
    assert_eq!(step, SeekerStep::Found { attempts: 0, offset: 0 });
    assert_eq!(exit_code(HarnessOutcome::SeekerFound), 0);
}
