use vstd::prelude::*;

verus! {

/// How many append steps the writer performs at most. The harness normally
/// ends earlier, when the seeker reaches a terminal state; this ceiling is
/// chosen to span at least two 128 KiB extents of the underlying storage.
pub const WRITER_STEPS: u64 = 2 * 131072 + 2;

/// The writer's mutable state: the offset at which its next byte lands,
/// which equals the number of bytes successfully appended so far.
#[derive(Clone, Copy, Debug, PartialEq, Eq, Structural)]
pub struct WriterState {
    pub next_offset: u64,
}

/// What one attempted append reported: a write of `size` bytes, or a
/// write error.
#[derive(Clone, Copy, Debug, PartialEq, Eq, Structural)]
pub enum WriteResult {
    Wrote { size: usize },
    Failed,
}

/// The writer's reaction to one append attempt: log the offset just
/// written and carry on with the advanced state, or stop the harness
/// fatally, either on a write of any size other than one byte or on a
/// write error.
#[derive(Clone, Copy, Debug, PartialEq, Eq, Structural)]
pub enum WriterStep {
    Advance { logged_offset: u64, state: WriterState },
    FatalSize { size: usize },
    FatalWrite,
}

/// Mathematical model of the writer: the offset its next byte lands at,
/// the offsets it has logged so far, oldest first, and whether it has hit
/// a fatal write outcome.
pub ghost struct WriterModel {
    pub next_offset: nat,
    pub logged: Seq<nat>,
    pub failed: bool,
}

/// The writer starts at offset zero, with nothing logged and no failure.
pub open spec fn writer_init() -> WriterModel {
    WriterModel { next_offset: 0, logged: Seq::empty(), failed: false }
}

/// One transition of the writer model: a write of exactly one byte logs
/// the offset it landed at and advances by one; any other outcome is
/// fatal, and a failed writer logs nothing further.
pub open spec fn writer_next(m: WriterModel, r: WriteResult) -> WriterModel {
    if m.failed {
        m
    } else {
        match r {
            WriteResult::Wrote { size } => if size == 1 {
                WriterModel {
                    next_offset: m.next_offset + 1,
                    logged: m.logged.push(m.next_offset),
                    failed: false,
                }
            } else {
                WriterModel { failed: true, ..m }
            },
            WriteResult::Failed => WriterModel { failed: true, ..m },
        }
    }
}

/// The writer model after a whole sequence of append attempts, oldest
/// first, starting from the initial state.
pub open spec fn writer_run(results: Seq<WriteResult>) -> WriterModel
    decreases results.len(),
{
    if results.len() == 0 {
        writer_init()
    } else {
        writer_next(writer_run(results.drop_last()), results.last())
    }
}

/// One step of the executable writer. The caller attempts one append,
/// hands what it reported here, and acts on the returned decision.
pub fn writer_step(state: WriterState, result: WriteResult) -> (r: WriterStep)
    requires
        state.next_offset < u64::MAX,
    ensures
        r == (match result {
            WriteResult::Wrote { size } => if size == 1 {
                WriterStep::Advance {
                    logged_offset: state.next_offset,
                    state: WriterState { next_offset: (state.next_offset + 1) as u64 },
                }
            } else {
                WriterStep::FatalSize { size }
            },
            WriteResult::Failed => WriterStep::FatalWrite,
        }),
{
    match result {
        WriteResult::Wrote { size } => if size == 1 {
            WriterStep::Advance {
                logged_offset: state.next_offset,
                state: WriterState { next_offset: state.next_offset + 1 },
            }
        } else {
            WriterStep::FatalSize { size }
        },
        WriteResult::Failed => WriterStep::FatalWrite,
    }
}

/// In every reachable writer model the logged offsets are exactly
/// `0, 1, 2, ...`: the `i`-th logged offset is `i`, and the next byte
/// lands right after the last logged offset unless the writer has failed.
pub proof fn lemma_writer_offsets_in_order(results: Seq<WriteResult>)
    ensures
        forall|i: int|
            0 <= i < writer_run(results).logged.len() ==> writer_run(results).logged[i] == i,
        !writer_run(results).failed ==> writer_run(results).next_offset == writer_run(
            results,
        ).logged.len(),
    decreases results.len(),
{
    if results.len() > 0 {
        lemma_writer_offsets_in_order(results.drop_last());
    }
}

/// The writer's log is strictly monotonic: of any two offsets it logs,
/// the earlier is the smaller, so no two successful writes report the
/// same offset.
pub proof fn lemma_writer_offsets_monotonic(results: Seq<WriteResult>, i: int, j: int)
    requires
        0 <= i < j < writer_run(results).logged.len(),
    ensures
        writer_run(results).logged[i] < writer_run(results).logged[j],
{
    lemma_writer_offsets_in_order(results);
}

/// A fatal write outcome is final: once a run has failed, no further
/// append attempt changes the model or logs another offset.
pub proof fn lemma_failed_writer_logs_nothing(results: Seq<WriteResult>, more: Seq<WriteResult>)
    requires
        writer_run(results).failed,
    ensures
        writer_run(results + more) == writer_run(results),
    decreases more.len(),
{
    if more.len() == 0 {
        assert(results + more =~= results);
    } else {
        lemma_failed_writer_logs_nothing(results, more.drop_last());
        assert((results + more).drop_last() =~= results + more.drop_last());
    }
}

} // verus!
