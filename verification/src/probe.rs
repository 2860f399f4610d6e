use vstd::prelude::*;

verus! {

/// The `errno` value by which a hole-aware seek reports that no data
/// region exists between the queried offset and end-of-file (the POSIX
/// `ENXIO` code). An empty or all-hole file is expected to produce it;
/// it drives the retry loop and is the one probe error that is not fatal.
pub const NO_DATA_ERRNO: i32 = 6;

/// Outcome of one sparse-data probe: the byte offset of the nearest data
/// region at or after the queried offset, a report that none exists from
/// there to end-of-file, or an unexpected failure code, which callers
/// treat as fatal.
#[derive(Clone, Copy, Debug, PartialEq, Eq, Structural)]
pub enum ProbeOutcome {
    DataAt { offset: u64 },
    NoDataFromHere,
    Unexpected { errno: i32 },
}

/// Wraps the raw result of a hole-aware seek into a [`ProbeOutcome`].
///
/// `raw_offset` is the seek's return value: a non-negative byte offset on
/// success, negative on failure. `errno` is the error code that accompanies
/// a failed seek; it is read only when `raw_offset` is negative.
pub fn classify_probe(raw_offset: i64, errno: i32) -> (r: ProbeOutcome)
    ensures
        raw_offset >= 0 ==> r == (ProbeOutcome::DataAt { offset: raw_offset as u64 }),
        raw_offset < 0 && errno == NO_DATA_ERRNO ==> r == ProbeOutcome::NoDataFromHere,
        raw_offset < 0 && errno != NO_DATA_ERRNO ==> r == (ProbeOutcome::Unexpected { errno }),
{
    if raw_offset >= 0 {
        ProbeOutcome::DataAt { offset: raw_offset as u64 }
    } else if errno == NO_DATA_ERRNO {
        ProbeOutcome::NoDataFromHere
    } else {
        ProbeOutcome::Unexpected { errno }
    }
}

} // verus!
