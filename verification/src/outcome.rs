use vstd::prelude::*;

verus! {

/// The terminal condition that ends the harness: the seeker observed a
/// data region (the success criterion), the seeker hit an unexpected
/// probe failure, the writer hit a fatal write outcome, the writer
/// exhausted its step ceiling without the seeker deciding, the
/// invocation was malformed, or setting the target file up failed.
#[derive(Clone, Copy, Debug, PartialEq, Eq, Structural)]
pub enum HarnessOutcome {
    SeekerFound,
    SeekerFatal,
    WriterFatal,
    WriterExhausted,
    UsageError,
    SetupError,
}

/// Whether an outcome is one of the fatal conditions, which all exit
/// with status one.
pub open spec fn is_fatal(o: HarnessOutcome) -> bool {
    o is SeekerFatal || o is WriterFatal || o is UsageError || o is SetupError
}

/// The process exit status for a terminal condition: zero exactly when
/// the seeker found data or the writer ran its full course without any
/// failure, one for every fatal condition.
pub fn exit_code(outcome: HarnessOutcome) -> (code: i32)
    ensures
        code == 0 <==> (outcome is SeekerFound || outcome is WriterExhausted),
        is_fatal(outcome) <==> code == 1,
{
    match outcome {
        HarnessOutcome::SeekerFound => 0,
        HarnessOutcome::WriterExhausted => 0,
        _ => 1,
    }
}

} // verus!
