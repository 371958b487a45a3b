use vstd::prelude::*;
use crate::errors::BackendError;
use crate::paths::{candidate_dirs_spec, first_existing};
use crate::supervisor::{running_phase, Phase, Step, Supervisor, MAX_ATTEMPTS};

verus! {

/// A supervisor whose process was just spawned.
pub open spec fn started() -> Supervisor {
    Supervisor { phase: Phase::Polling, attempts: 0 }
}

/// No response in `responses`.
pub open spec fn all_silent(responses: Seq<bool>) -> bool {
    forall|j: int| 0 <= j < responses.len() ==> !responses[j]
}

proof fn lemma_silent_probes(a: u32, responses: Seq<bool>)
    requires
        all_silent(responses),
        a + responses.len() < MAX_ATTEMPTS,
    ensures
        (Supervisor { phase: Phase::Polling, attempts: a }).after_probes(responses) == (Supervisor {
            phase: Phase::Polling,
            attempts: (a + responses.len()) as u32,
        }),
    decreases responses.len(),
{
    if responses.len() > 0 {
        lemma_silent_probes((a + 1) as u32, responses.drop_first());
    }
}

proof fn lemma_first_response(a: u32, responses: Seq<bool>)
    requires
        responses.len() >= 1,
        responses.last(),
        all_silent(responses.drop_last()),
        a + responses.len() <= MAX_ATTEMPTS,
    ensures
        (Supervisor { phase: Phase::Polling, attempts: a }).after_probes(responses) == (Supervisor {
            phase: Phase::Ready,
            attempts: (a + responses.len()) as u32,
        }),
    decreases responses.len(),
{
    let s = Supervisor { phase: Phase::Polling, attempts: a };
    if responses.len() == 1 {
        assert(s.after_probe(responses[0]).0.after_probes(responses.drop_first()) == s.after_probe(
            responses[0],
        ).0);
    } else {
        assert(!responses.drop_last()[0]);
        let rest = responses.drop_first();
        assert(rest.drop_last() =~= responses.drop_last().drop_first());
        lemma_first_response((a + 1) as u32, rest);
    }
}

proof fn lemma_all_silent(a: u32, responses: Seq<bool>)
    requires
        all_silent(responses),
        responses.len() >= 1,
        a + responses.len() == MAX_ATTEMPTS,
    ensures
        (Supervisor { phase: Phase::Polling, attempts: a }).after_probes(responses) == (Supervisor {
            phase: Phase::TimedOut,
            attempts: MAX_ATTEMPTS,
        }),
    decreases responses.len(),
{
    let s = Supervisor { phase: Phase::Polling, attempts: a };
    if responses.len() == 1 {
        assert(s.after_probe(responses[0]).0.after_probes(responses.drop_first()) == s.after_probe(
            responses[0],
        ).0);
    } else {
        lemma_all_silent((a + 1) as u32, responses.drop_first());
    }
}

/// When the first response comes at probe `k` of the allowed attempts, the
/// backend is ready after exactly `k` probes, and every probe before it led to
/// one more one-second wait: with the wait after spawning, `k` waits in all.
pub proof fn lemma_ready_at_first_response(responses: Seq<bool>)
    requires
        1 <= responses.len() <= MAX_ATTEMPTS,
        responses.last(),
        all_silent(responses.drop_last()),
    ensures
        (Supervisor { phase: Phase::Unstarted, attempts: 0 }).after_spawn(true) == (started(), Step::WaitThenProbe { report_progress: false }),
        started().after_probes(responses) == (Supervisor { phase: Phase::Ready, attempts: responses.len() as u32 }),
        forall|j: int|
            0 <= j < responses.len() - 1 ==> (#[trigger] started().after_probes(responses.take(j))).after_probe(
                responses[j],
            ).1 is WaitThenProbe,
        forall|j: int|
            0 <= j < responses.len() - 1 ==> (#[trigger] started().after_probes(responses.take(j))).phase
                is Polling,
{
    lemma_first_response(0, responses);
    assert forall|j: int| 0 <= j < responses.len() - 1 implies (#[trigger] started().after_probes(
        responses.take(j),
    )).phase is Polling && started().after_probes(responses.take(j)).after_probe(responses[j]).1 is WaitThenProbe by {
        assert(all_silent(responses.take(j)));
        lemma_silent_probes(0, responses.take(j));
        assert(!responses.drop_last()[j]);
    }
}

/// When no probe is answered, polling ends after exactly the allowed number of
/// attempts with a readiness timeout, and the process is kept running: a later
/// stop still kills it.
pub proof fn lemma_timeout_keeps_process(responses: Seq<bool>)
    requires
        responses.len() == MAX_ATTEMPTS,
        all_silent(responses),
    ensures
        started().after_probes(responses) == (Supervisor { phase: Phase::TimedOut, attempts: MAX_ATTEMPTS }),
        started().after_probes(responses.drop_last()).after_probe(responses.last()).1 == (Step::Failed {
            error: BackendError::ReadinessTimeout,
        }),
        running_phase(started().after_probes(responses).phase),
        started().after_probes(responses).after_stop().1,
{
    lemma_all_silent(0, responses);
    assert(all_silent(responses.drop_last()));
    lemma_silent_probes(0, responses.drop_last());
}

/// Stopping twice is harmless: the second stop owes no kill and changes nothing.
pub proof fn lemma_stop_idempotent(s: Supervisor)
    requires
        s.wf(),
    ensures
        !s.after_stop().0.after_stop().1,
        s.after_stop().0.after_stop().0 == s.after_stop().0,
        s.after_stop().0.wf(),
{
}

/// With the entry point only in the working directory and the first probe
/// answered, the working directory is chosen and the backend is ready after a
/// single probe, so the window is sent to the backend's address.
pub proof fn lemma_start_from_working_directory(resource_root: Seq<char>, current_dir: Seq<char>)
    ensures
        first_existing(seq![false, false, true]) == Some(2int),
        candidate_dirs_spec(resource_root, current_dir)[2] == current_dir,
        (Supervisor { phase: Phase::Unstarted, attempts: 0 }).after_spawn(true).0.after_probe(true) == (
        Supervisor { phase: Phase::Ready, attempts: 1 }, Step::Ready),
{
    let e = seq![false, false, true];
    assert(e.drop_first().drop_first().drop_first() =~= Seq::<bool>::empty());
    assert(e.drop_first().drop_first()[0]);
    assert(first_existing(e.drop_first().drop_first()) == Some(0int));
    assert(!e.drop_first()[0]);
    assert(first_existing(e.drop_first()) == Some(1int));
}

} // verus!
