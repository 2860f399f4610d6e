use vstd::prelude::*;

use crate::probe::ProbeOutcome;

verus! {

/// The seeker's mutable state while it is still polling: how many probes
/// have come back with "no data from here".
#[derive(Clone, Copy, Debug, PartialEq, Eq, Structural)]
pub struct SeekerState {
    pub attempts: u64,
}

/// The seeker's reaction to one probe outcome: keep polling with an
/// updated count, stop the whole harness successfully with the attempt
/// count and the observed data offset, or stop it fatally with the
/// unexpected error code.
#[derive(Clone, Copy, Debug, PartialEq, Eq, Structural)]
pub enum SeekerStep {
    Continue { state: SeekerState },
    Found { attempts: u64, offset: u64 },
    Fatal { errno: i32 },
}

/// Mathematical model of the seeker: `Polling` counts the fruitless
/// probes; `Found` and `Fatal` are terminal.
pub ghost enum SeekerModel {
    Polling { attempts: nat },
    Found { attempts: nat, offset: nat },
    Fatal { errno: int },
}

/// The seeker starts polling with no attempts recorded.
pub open spec fn seeker_init() -> SeekerModel {
    SeekerModel::Polling { attempts: 0 }
}

/// One transition of the seeker model: while polling, a "no data" outcome
/// adds one attempt, a data offset ends in `Found` and an unexpected code
/// ends in `Fatal`; the terminal states absorb every further outcome.
pub open spec fn seeker_next(m: SeekerModel, o: ProbeOutcome) -> SeekerModel {
    match m {
        SeekerModel::Polling { attempts } => match o {
            ProbeOutcome::NoDataFromHere => SeekerModel::Polling { attempts: attempts + 1 },
            ProbeOutcome::DataAt { offset } => SeekerModel::Found {
                attempts,
                offset: offset as nat,
            },
            ProbeOutcome::Unexpected { errno } => SeekerModel::Fatal { errno: errno as int },
        },
        terminal => terminal,
    }
}

/// The seeker model after reacting to a whole sequence of probe outcomes,
/// oldest first, starting from the initial state.
pub open spec fn seeker_run(outcomes: Seq<ProbeOutcome>) -> SeekerModel
    decreases outcomes.len(),
{
    if outcomes.len() == 0 {
        seeker_init()
    } else {
        seeker_next(seeker_run(outcomes.drop_last()), outcomes.last())
    }
}

/// One step of the executable seeker. The caller makes one probe, hands
/// its outcome here, and acts on the returned decision.
pub fn seeker_step(state: SeekerState, outcome: ProbeOutcome) -> (r: SeekerStep)
    requires
        state.attempts < u64::MAX,
    ensures
        r == (match outcome {
            ProbeOutcome::NoDataFromHere => SeekerStep::Continue {
                state: SeekerState { attempts: (state.attempts + 1) as u64 },
            },
            ProbeOutcome::DataAt { offset } => SeekerStep::Found {
                attempts: state.attempts,
                offset,
            },
            ProbeOutcome::Unexpected { errno } => SeekerStep::Fatal { errno },
        }),
        seeker_next(
            SeekerModel::Polling { attempts: state.attempts as nat },
            outcome,
        ) == (match r {
            SeekerStep::Continue { state: s } => SeekerModel::Polling { attempts: s.attempts as nat },
            SeekerStep::Found { attempts, offset } => SeekerModel::Found {
                attempts: attempts as nat,
                offset: offset as nat,
            },
            SeekerStep::Fatal { errno } => SeekerModel::Fatal { errno: errno as int },
        }),
{
    match outcome {
        ProbeOutcome::NoDataFromHere => SeekerStep::Continue {
            state: SeekerState { attempts: state.attempts + 1 },
        },
        ProbeOutcome::DataAt { offset } => SeekerStep::Found { attempts: state.attempts, offset },
        ProbeOutcome::Unexpected { errno } => SeekerStep::Fatal { errno },
    }
}

/// While every probe reports "no data from here", the seeker stays in
/// `Polling` and counts exactly one attempt per probe: it never reports
/// data that no probe showed, and no probe goes uncounted.
pub proof fn lemma_all_no_data_keeps_polling(outcomes: Seq<ProbeOutcome>)
    requires
        forall|i: int| 0 <= i < outcomes.len() ==> outcomes[i] == ProbeOutcome::NoDataFromHere,
    ensures
        seeker_run(outcomes) == (SeekerModel::Polling { attempts: outcomes.len() }),
    decreases outcomes.len(),
{
    if outcomes.len() > 0 {
        lemma_all_no_data_keeps_polling(outcomes.drop_last());
    }
}

/// The seeker reports success only on the word of a probe: if a run ends
/// in `Found`, some probe outcome in it was `DataAt`, and the reported
/// offset is the offset that the probe gave.
pub proof fn lemma_found_needs_data(outcomes: Seq<ProbeOutcome>)
    requires
        seeker_run(outcomes) is Found,
    ensures
        exists|i: int|
            0 <= i < outcomes.len() && outcomes[i] == (ProbeOutcome::DataAt {
                offset: seeker_run(outcomes)->Found_offset as u64,
            }),
    decreases outcomes.len(),
{
    if outcomes.len() > 0 {
        if seeker_run(outcomes.drop_last()) is Found {
            lemma_found_needs_data(outcomes.drop_last());
            let i = choose|i: int|
                0 <= i < outcomes.drop_last().len() && outcomes.drop_last()[i]
                    == (ProbeOutcome::DataAt {
                    offset: seeker_run(outcomes.drop_last())->Found_offset as u64,
                });
            assert(outcomes[i] == outcomes.drop_last()[i]);
        } else {
            assert(outcomes[outcomes.len() - 1] == outcomes.last());
        }
    }
}

/// The first data offset a probe reports is the one the seeker announces:
/// after `k` probes that all said "no data from here", a probe that says
/// `DataAt` settles the run in `Found`, with the attempt count `k` and
/// with exactly the offset that probe gave — whatever any later probe
/// would have said, the decision is final.
pub proof fn lemma_first_data_is_found(outcomes: Seq<ProbeOutcome>, k: int, offset: u64)
    requires
        0 <= k < outcomes.len(),
        forall|i: int| 0 <= i < k ==> outcomes[i] == ProbeOutcome::NoDataFromHere,
        outcomes[k] == (ProbeOutcome::DataAt { offset }),
    ensures
        seeker_run(outcomes) == (SeekerModel::Found {
            attempts: k as nat,
            offset: offset as nat,
        }),
    decreases outcomes.len(),
{
    if outcomes.len() == k + 1 {
        lemma_all_no_data_keeps_polling(outcomes.drop_last());
    } else {
        lemma_first_data_is_found(outcomes.drop_last(), k, offset);
    }
}

/// A terminal decision is final: once a run has left `Polling`, no
/// further probe outcome changes what the seeker decided.
pub proof fn lemma_seeker_decision_is_final(outcomes: Seq<ProbeOutcome>, more: Seq<ProbeOutcome>)
    requires
        !(seeker_run(outcomes) is Polling),
    ensures
        seeker_run(outcomes + more) == seeker_run(outcomes),
    decreases more.len(),
{
    if more.len() == 0 {
        assert(outcomes + more =~= outcomes);
    } else {
        lemma_seeker_decision_is_final(outcomes, more.drop_last());
        assert((outcomes + more).drop_last() =~= outcomes + more.drop_last());
    }
}

} // verus!
