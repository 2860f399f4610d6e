//! A race-diagnostic harness core: a writer appends bytes to a sparse file
//! while a seeker polls the filesystem for the offset of the first data
//! region. This crate holds the verified logic of that harness: the
//! three-way classification of a data-seeking probe, the seeker's polling
//! state machine, the writer's append-step state machine, the invocation
//! check, the exit-code rule, and the log-line formatting.
//!
//! The raw filesystem calls (the `SEEK_DATA` probe, file creation and
//! removal, the append itself) and the two threads that drive the loops
//! live outside this crate; they feed plain values into the functions here
//! and act on the returned decisions.

pub mod cli;
pub mod logfmt;
pub mod outcome;
pub mod probe;
pub mod seeker;
pub mod writer;

pub use cli::parse_target;
pub use cli::usage_message;
pub use logfmt::decimal_string;
pub use logfmt::format_log_line;
pub use logfmt::found_message;
pub use logfmt::probe_failure_message;
pub use logfmt::seeker_start_message;
pub use logfmt::signed_decimal_string;
pub use logfmt::write_size_message;
pub use logfmt::wrote_message;
pub use outcome::exit_code;
pub use outcome::HarnessOutcome;
pub use probe::classify_probe;
pub use probe::ProbeOutcome;
pub use probe::NO_DATA_ERRNO;
pub use seeker::seeker_step;
pub use seeker::SeekerState;
pub use seeker::SeekerStep;
pub use writer::writer_step;
pub use writer::WriteResult;
pub use writer::WriterState;
pub use writer::WriterStep;
pub use writer::WRITER_STEPS;
