//! The readiness gate: a bounded polling state machine. Each tick it takes
//! the two probe outcomes, derives a status, and either hands off (both
//! ready), keeps polling, or fails once the attempt budget is spent. `Ready`
//! and `Failed` are terminal: no tick leaves either, and a driver that obeys
//! the contracts never probes again after reaching one.

use vstd::prelude::*;

use crate::status::ReadinessStatus;
use crate::status::spec_status;
use crate::status::readiness_status;

verus! {

/// How many polling attempts the readiness gate allows by default: one per second for
/// a minute.
pub const DEFAULT_MAX_ATTEMPTS: u32 = 60;

/// Seconds between two polling ticks.
pub const POLL_INTERVAL_SECS: u64 = 1;

/// The readiness gate's state: still polling (with the number of attempts already
/// spent), or one of the two terminal states.
#[derive(Clone, Copy, PartialEq, Eq, Structural, Debug)]
pub enum GateState {
    /// Polling is under way; `attempt` ticks have completed without success.
    Polling { attempt: u32 },
    /// Both services answered on some tick; the consumer was handed off.
    Ready,
    /// The attempt budget ran out before both services answered.
    Failed,
}

/// What one tick asks the driver to do.
#[derive(Clone, Copy, PartialEq, Eq, Structural, Debug)]
pub enum TickOutcome {
    /// Both services answered: emit `Ready` once and hand off to the
    /// frontend; polling is over.
    BecameReady,
    /// At least one service is pending and budget remains: emit the status
    /// and poll again after the interval.
    StillPolling { status: ReadinessStatus },
    /// At least one service is pending and the budget is spent: emit the
    /// status, then emit `Failed`; polling is over.
    BecameFailed { status: ReadinessStatus },
}

/// The terminal result of the readiness gate: both services came up, or the
/// attempt budget ran out first.
#[derive(Clone, Copy, PartialEq, Eq, Structural, Debug)]
pub enum PollOutcome {
    /// Both services answered within the budget.
    Ready,
    /// The budget was spent without both services answering.
    TimedOut,
}

/// The readiness gate.
pub struct ReadinessGate {
    state: GateState,
    max_attempts: u32,
}

/// Where one tick takes the readiness gate from state `state` under budget `max`, and
/// what it asks the driver to do, given the two probe outcomes.
pub open spec fn spec_tick(state: GateState, max: u32, backend_ready: bool, frontend_ready: bool) -> (
    GateState,
    TickOutcome,
)
    recommends
        state is Polling,
{
    if backend_ready && frontend_ready {
        (GateState::Ready, TickOutcome::BecameReady)
    } else {
        let status = spec_status(backend_ready, frontend_ready);
        if state->attempt + 1 >= max {
            (GateState::Failed, TickOutcome::BecameFailed { status })
        } else {
            (
                GateState::Polling { attempt: (state->attempt + 1) as u32 },
                TickOutcome::StillPolling { status },
            )
        }
    }
}

/// The status a tick's outcome reports: the pending status it carries, or
/// `BothReady` when the tick succeeded.
pub open spec fn emitted_status(out: TickOutcome) -> ReadinessStatus {
    match out {
        TickOutcome::BecameReady => ReadinessStatus::BothReady,
        TickOutcome::StillPolling { status } => status,
        TickOutcome::BecameFailed { status } => status,
    }
}

/// What a whole run of the readiness gate over a sequence of probe outcomes produces:
/// the state it ends in and how many emissions of each kind the driver made.
/// A tick that succeeds emits `Ready` alone; every other tick emits one
/// status message, and the exhausting tick emits `Failed` besides.
pub struct RunSummary {
    /// The state after the run.
    pub final_state: GateState,
    /// Pending-status messages emitted.
    pub status_emissions: nat,
    /// `Ready` emissions.
    pub ready_emissions: nat,
    /// `Failed` emissions.
    pub failed_emissions: nat,
    /// Ticks that actually ran, each probing both services once.
    pub ticks: nat,
}

/// Run the readiness gate from `state` over the given probe outcomes, one tick per
/// element, stopping as soon as a terminal state is reached or the outcomes
/// run out. Outcomes past a terminal state are never consumed: a run models a
/// driver that checks the stop condition before every tick.
pub open spec fn gate_run(state: GateState, max: u32, outcomes: Seq<(bool, bool)>) -> RunSummary
    decreases outcomes.len(),
{
    if !(state is Polling) || outcomes.len() == 0 {
        RunSummary {
            final_state: state,
            status_emissions: 0,
            ready_emissions: 0,
            failed_emissions: 0,
            ticks: 0,
        }
    } else {
        let stepped = spec_tick(state, max, outcomes[0].0, outcomes[0].1);
        let rest = gate_run(stepped.0, max, outcomes.drop_first());
        RunSummary {
            final_state: rest.final_state,
            status_emissions: rest.status_emissions + (
            if stepped.1 is BecameReady {
                0nat
            } else {
                1nat
            }),
            ready_emissions: rest.ready_emissions + (
            if stepped.1 is BecameReady {
                1nat
            } else {
                0nat
            }),
            failed_emissions: rest.failed_emissions + (
            if stepped.1 is BecameFailed {
                1nat
            } else {
                0nat
            }),
            ticks: rest.ticks + 1,
        }
    }
}

/// The status a tick reports is a function of that tick's two probe booleans
/// alone: neither the attempt already spent nor the budget enters into it.
pub proof fn lemma_status_is_memoryless(
    s1: GateState,
    s2: GateState,
    m1: u32,
    m2: u32,
    backend_ready: bool,
    frontend_ready: bool,
)
    requires
        s1 is Polling,
        s2 is Polling,
    ensures
        emitted_status(spec_tick(s1, m1, backend_ready, frontend_ready).1) == spec_status(
            backend_ready,
            frontend_ready,
        ),
        emitted_status(spec_tick(s1, m1, backend_ready, frontend_ready).1) == emitted_status(
            spec_tick(s2, m2, backend_ready, frontend_ready).1,
        ),
{
}

/// Once the readiness gate is terminal, a run does nothing: no tick runs, so no probe
/// is issued and nothing more is emitted.
pub proof fn lemma_terminal_absorbs(state: GateState, max: u32, outcomes: Seq<(bool, bool)>)
    requires
        !(state is Polling),
    ensures
        gate_run(state, max, outcomes) == (RunSummary {
            final_state: state,
            status_emissions: 0nat,
            ready_emissions: 0nat,
            failed_emissions: 0nat,
            ticks: 0nat,
        }),
{
}

/// Over any probe outcomes whatsoever, a gate polling with `attempt` spent
/// emits at most `max - attempt` status messages, at most one `Ready` and at
/// most one `Failed`, and never both.
pub proof fn lemma_emissions_bounded(state: GateState, max: u32, outcomes: Seq<(bool, bool)>)
    requires
        state matches GateState::Polling { attempt } ==> attempt < max,
    ensures
        (state matches GateState::Polling { attempt } ==> gate_run(
            state,
            max,
            outcomes,
        ).status_emissions <= max - attempt),
        !(state is Polling) ==> gate_run(state, max, outcomes).status_emissions == 0,
        gate_run(state, max, outcomes).ready_emissions <= 1,
        gate_run(state, max, outcomes).failed_emissions <= 1,
        gate_run(state, max, outcomes).ready_emissions + gate_run(
            state,
            max,
            outcomes,
        ).failed_emissions <= 1,
    decreases outcomes.len(),
{
    if state is Polling && outcomes.len() > 0 {
        let stepped = spec_tick(state, max, outcomes[0].0, outcomes[0].1);
        lemma_emissions_bounded(stepped.0, max, outcomes.drop_first());
    }
}

/// With a sequence of probe outcomes on which the two services are never
/// ready together, and enough of them to spend the budget, the readiness gate runs to
/// `Failed`: it emits exactly one status message per remaining attempt, then
/// one `Failed`, and ticks exactly as many times as attempts remained — after
/// which no probing occurs, however many outcomes are left.
pub proof fn lemma_exhaustion_run(attempt: u32, max: u32, outcomes: Seq<(bool, bool)>)
    requires
        attempt < max,
        outcomes.len() >= max - attempt,
        forall|i: int| 0 <= i < outcomes.len() ==> !(#[trigger] outcomes[i].0 && outcomes[i].1),
    ensures
        ({
            let run = gate_run(GateState::Polling { attempt }, max, outcomes);
            &&& run.final_state is Failed
            &&& run.status_emissions == max - attempt
            &&& run.failed_emissions == 1
            &&& run.ready_emissions == 0
            &&& run.ticks == max - attempt
        }),
    decreases outcomes.len(),
{
    if attempt + 1 >= max {
        lemma_terminal_absorbs(GateState::Failed, max, outcomes.drop_first());
    } else {
        lemma_exhaustion_run((attempt + 1) as u32, max, outcomes.drop_first());
    }
}

/// If both services answer on the very first tick, the run ends at once:
/// exactly one `Ready` emission, no status message, no `Failed`, and no
/// further tick — the remaining outcomes are never probed.
pub proof fn lemma_ready_on_first_tick(max: u32, outcomes: Seq<(bool, bool)>)
    requires
        outcomes.len() >= 1,
        outcomes[0].0 && outcomes[0].1,
    ensures
        ({
            let run = gate_run(GateState::Polling { attempt: 0u32 }, max, outcomes);
            &&& run.final_state is Ready
            &&& run.ready_emissions == 1
            &&& run.status_emissions == 0
            &&& run.failed_emissions == 0
            &&& run.ticks == 1
        }),
{
    lemma_terminal_absorbs(GateState::Ready, max, outcomes.drop_first());
}

impl ReadinessGate {
    /// The readiness gate's invariant: while polling, the spent attempts stay under the
    /// budget.
    pub open spec fn wf(&self) -> bool {
        self.spec_state() matches GateState::Polling { attempt } ==> attempt
            < self.spec_max_attempts()
    }

    /// The current state.
    pub closed spec fn spec_state(&self) -> GateState {
        self.state
    }

    /// The attempt budget the readiness gate was created with.
    pub closed spec fn spec_max_attempts(&self) -> u32 {
        self.max_attempts
    }

    /// A gate that starts polling at attempt zero. A budget of zero allows no
    /// tick at all, so such a gate starts out already failed.
    pub fn new(max_attempts: u32) -> (gate: ReadinessGate)
        ensures
            gate.wf(),
            gate.spec_max_attempts() == max_attempts,
            max_attempts > 0 ==> gate.spec_state() == (GateState::Polling { attempt: 0u32 }),
            max_attempts == 0 ==> gate.spec_state() is Failed,
    {
        if max_attempts == 0 {
            ReadinessGate { state: GateState::Failed, max_attempts }
        } else {
            ReadinessGate { state: GateState::Polling { attempt: 0 }, max_attempts }
        }
    }

    /// Whether the readiness gate is in a terminal state; a driver stops probing as
    /// soon as this returns true.
    pub fn is_terminal(&self) -> (r: bool)
        ensures
            r == !(self.spec_state() is Polling),
    {
        !matches!(self.state, GateState::Polling { .. })
    }

    /// The state, for a driver or a test to inspect.
    pub fn state(&self) -> (r: GateState)
        ensures
            r == self.spec_state(),
    {
        self.state
    }

    /// The terminal result, once there is one; a still-polling readiness gate
    /// has none yet.
    pub fn outcome(&self) -> (r: Option<PollOutcome>)
        ensures
            self.spec_state() is Polling <==> r is None,
            self.spec_state() is Ready <==> r == Some(PollOutcome::Ready),
            self.spec_state() is Failed <==> r == Some(PollOutcome::TimedOut),
    {
        match self.state {
            GateState::Polling { .. } => None,
            GateState::Ready => Some(PollOutcome::Ready),
            GateState::Failed => Some(PollOutcome::TimedOut),
        }
    }

    /// The attempt budget.
    pub fn max_attempts(&self) -> (r: u32)
        ensures
            r == self.spec_max_attempts(),
    {
        self.max_attempts
    }

    /// One polling tick: take the two probe outcomes, move the readiness gate exactly
    /// as `spec_tick` says, and tell the driver what to emit. Only a polling
    /// gate ticks; terminal states are never re-entered or probed.
    pub fn tick(&mut self, backend_ready: bool, frontend_ready: bool) -> (out: TickOutcome)
        requires
            old(self).wf(),
            old(self).spec_state() is Polling,
        ensures
            final(self).wf(),
            final(self).spec_max_attempts() == old(self).spec_max_attempts(),
            (final(self).spec_state(), out) == spec_tick(
                old(self).spec_state(),
                old(self).spec_max_attempts(),
                backend_ready,
                frontend_ready,
            ),
    {
        if backend_ready && frontend_ready {
            self.state = GateState::Ready;
            TickOutcome::BecameReady
        } else {
            let status = readiness_status(backend_ready, frontend_ready);
            let attempt = match self.state {
                GateState::Polling { attempt } => attempt,
                _ => 0,
            };
            if attempt + 1 >= self.max_attempts {
                self.state = GateState::Failed;
                TickOutcome::BecameFailed { status }
            } else {
                self.state = GateState::Polling { attempt: attempt + 1 };
                TickOutcome::StillPolling { status }
            }
        }
    }
}

} // verus!
