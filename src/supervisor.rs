use vstd::prelude::*;
use crate::errors::BackendError;

verus! {

/// Most readiness probes made before giving up; one per second.
pub const MAX_ATTEMPTS: u32 = 30;

/// A progress notice follows every failed probe whose zero-based index is a
/// multiple of this.
pub const PROGRESS_EVERY: u32 = 5;

/// The backend's base address, shown in the window once it is ready.
pub open spec fn backend_address_spec() -> Seq<char> {
    "http://localhost:8000"@
}

/// The address whose answer means the backend is ready.
pub open spec fn readiness_address_spec() -> Seq<char> {
    "http://localhost:8000/"@
}

/// The backend's base address.
pub fn backend_address() -> (r: String)
    ensures
        r@ == backend_address_spec(),
{
    String::from_str("http://localhost:8000")
}

/// The address probed for readiness.
pub fn readiness_address() -> (r: String)
    ensures
        r@ == readiness_address_spec(),
{
    String::from_str("http://localhost:8000/")
}

/// Where the supervised backend stands.
#[derive(Clone, Copy, Debug, PartialEq, Eq, Structural)]
pub enum Phase {
    /// Nothing spawned yet.
    Unstarted,
    /// The process could not be created; nothing runs.
    SpawnFailed,
    /// The process runs and readiness probes are being made.
    Polling,
    /// The process answered a probe.
    Ready,
    /// The process never answered; it is left running.
    TimedOut,
    /// The process was killed.
    Terminated,
}

/// What the caller does next.
#[derive(Clone, Copy, Debug, PartialEq, Eq, Structural)]
pub enum Step {
    /// Wait one second, then probe the readiness address and report the outcome;
    /// announce progress first when `report_progress` is set.
    WaitThenProbe { report_progress: bool },
    /// The backend is ready: show its address.
    Ready,
    /// Startup failed with `error`.
    Failed { error: BackendError },
    /// Nothing to do in this phase.
    Idle,
}

/// The decisions of one backend's lifetime: spawning, bounded readiness
/// polling and teardown. The caller performs each step and reports back.
#[derive(Clone, Copy, Debug, PartialEq, Eq, Structural)]
pub struct Supervisor {
    pub phase: Phase,
    /// Readiness probes made so far.
    pub attempts: u32,
}

/// A process is alive and may be killed.
pub open spec fn running_phase(p: Phase) -> bool {
    p is Polling || p is Ready || p is TimedOut
}

impl Supervisor {
    /// The probe count agrees with the phase.
    pub open spec fn wf(self) -> bool {
        &&& self.attempts <= MAX_ATTEMPTS
        &&& self.phase is Unstarted ==> self.attempts == 0
        &&& self.phase is SpawnFailed ==> self.attempts == 0
        &&& self.phase is Polling ==> self.attempts < MAX_ATTEMPTS
        &&& self.phase is Ready ==> self.attempts >= 1
        &&& self.phase is TimedOut ==> self.attempts == MAX_ATTEMPTS
    }

    /// The state and step after the spawn attempt reports `spawned`.
    pub open spec fn after_spawn(self, spawned: bool) -> (Supervisor, Step) {
        if !(self.phase is Unstarted) {
            (self, Step::Idle)
        } else if spawned {
            (Supervisor { phase: Phase::Polling, attempts: 0 }, Step::WaitThenProbe { report_progress: false })
        } else {
            (Supervisor { phase: Phase::SpawnFailed, attempts: 0 }, Step::Failed { error: BackendError::SpawnError })
        }
    }

    /// The state and step after a probe reports whether the backend `responded`.
    pub open spec fn after_probe(self, responded: bool) -> (Supervisor, Step) {
        if !(self.phase is Polling) {
            (self, Step::Idle)
        } else if responded {
            (Supervisor { phase: Phase::Ready, attempts: (self.attempts + 1) as u32 }, Step::Ready)
        } else if self.attempts + 1 >= MAX_ATTEMPTS {
            (
                Supervisor { phase: Phase::TimedOut, attempts: (self.attempts + 1) as u32 },
                Step::Failed { error: BackendError::ReadinessTimeout },
            )
        } else {
            (
                Supervisor { phase: Phase::Polling, attempts: (self.attempts + 1) as u32 },
                Step::WaitThenProbe { report_progress: self.attempts % PROGRESS_EVERY == 0 },
            )
        }
    }

    /// The state after a stop request, and whether a kill is owed.
    pub open spec fn after_stop(self) -> (Supervisor, bool) {
        if running_phase(self.phase) {
            (Supervisor { phase: Phase::Terminated, attempts: self.attempts }, true)
        } else {
            (self, false)
        }
    }

    /// The state after probes report `responses` in turn.
    pub open spec fn after_probes(self, responses: Seq<bool>) -> Supervisor
        decreases responses.len(),
    {
        if responses.len() == 0 {
            self
        } else {
            self.after_probe(responses[0]).0.after_probes(responses.drop_first())
        }
    }

    /// A supervisor with nothing spawned.
    pub fn new() -> (r: Supervisor)
        ensures
            r.phase == Phase::Unstarted,
            r.attempts == 0,
            r.wf(),
    {
        Supervisor { phase: Phase::Unstarted, attempts: 0 }
    }

    /// Records whether the backend process was `spawned`; on success the
    /// readiness polling begins.
    pub fn spawn_result(&mut self, spawned: bool) -> (r: Step)
        requires
            old(self).wf(),
        ensures
            (*final(self), r) == old(self).after_spawn(spawned),
            final(self).wf(),
    {
        if self.phase != Phase::Unstarted {
            return Step::Idle;
        }
        if spawned {
            self.phase = Phase::Polling;
            Step::WaitThenProbe { report_progress: false }
        } else {
            self.phase = Phase::SpawnFailed;
            Step::Failed { error: BackendError::SpawnError }
        }
    }

    /// Records the outcome of one readiness probe: any response means ready;
    /// after the last allowed failure, startup times out and the process is
    /// left running.
    pub fn probe_result(&mut self, responded: bool) -> (r: Step)
        requires
            old(self).wf(),
        ensures
            (*final(self), r) == old(self).after_probe(responded),
            final(self).wf(),
    {
        if self.phase != Phase::Polling {
            return Step::Idle;
        }
        let previous = self.attempts;
        self.attempts = previous + 1;
        if responded {
            self.phase = Phase::Ready;
            Step::Ready
        } else if self.attempts >= MAX_ATTEMPTS {
            self.phase = Phase::TimedOut;
            Step::Failed { error: BackendError::ReadinessTimeout }
        } else {
            Step::WaitThenProbe { report_progress: previous % PROGRESS_EVERY == 0 }
        }
    }

    /// Handles a stop request: returns whether the caller must kill the
    /// process, which happens at most once; otherwise nothing changes.
    pub fn stop(&mut self) -> (kill: bool)
        requires
            old(self).wf(),
        ensures
            (*final(self), kill) == old(self).after_stop(),
            final(self).wf(),
    {
        if self.has_running_process() {
            self.phase = Phase::Terminated;
            true
        } else {
            false
        }
    }

    /// Whether a spawned process is alive and held for teardown.
    pub fn has_running_process(&self) -> (r: bool)
        ensures
            r == running_phase(self.phase),
    {
        match self.phase {
            Phase::Polling | Phase::Ready | Phase::TimedOut => true,
            _ => false,
        }
    }
}

} // verus!
