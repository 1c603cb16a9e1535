use vstd::prelude::*;

use crate::diagnostics::{Component, LogMessage, LogRecord, Severity};

verus! {

/// The states of the fault-handling state machine. `Armed` is initial;
/// `Halted` is terminal: no further transition leaves it.
#[derive(Clone, Copy, Debug, PartialEq, Eq, Structural)]
pub enum FaultState {
    /// Protection programmed, no violation observed.
    Armed,
    /// A hardware access-violation trap has been delivered.
    Faulted,
    /// Terminal: no further computation progresses (fail closed).
    Halted,
}

/// Events driving the fault state machine. An access violation is
/// delivered asynchronously by the trap hardware; handler completion is
/// the handler's own deterministic final step.
#[derive(Clone, Copy, Debug, PartialEq, Eq, Structural)]
pub enum FaultEvent {
    AccessViolation { program_counter: u32, fault_address: Option<u32> },
    HandlerComplete,
}

/// Metadata captured exactly once per hardware trap; immutable after
/// creation.
#[derive(Clone, Copy, Debug, PartialEq, Eq, Structural)]
pub struct FaultRecord {
    /// Program counter at the faulting instruction.
    pub program_counter: u32,
    /// Faulting data address, when the hardware exposes it.
    pub fault_address: Option<u32>,
    /// Sequence number or timestamp supplied by the platform.
    pub sequence: u64,
}

/// The transition function of the fault state machine. Only a trap moves
/// `Armed` to `Faulted`, only handler completion moves `Faulted` to
/// `Halted`, and `Halted` absorbs every event.
pub open spec fn fsm_step(state: FaultState, event: FaultEvent) -> FaultState {
    match (state, event) {
        (FaultState::Armed, FaultEvent::AccessViolation { .. }) => FaultState::Faulted,
        (FaultState::Faulted, FaultEvent::HandlerComplete) => FaultState::Halted,
        _ => state,
    }
}

/// The state reached from `state` after a sequence of events.
pub open spec fn run_events(state: FaultState, events: Seq<FaultEvent>) -> FaultState
    decreases events.len(),
{
    if events.len() == 0 {
        state
    } else {
        run_events(fsm_step(state, events.first()), events.drop_first())
    }
}

/// How many `Armed -> Faulted` transitions a run of events performs.
pub open spec fn count_fault_transitions(state: FaultState, events: Seq<FaultEvent>) -> nat
    decreases events.len(),
{
    if events.len() == 0 {
        0
    } else {
        let hit: nat = if state is Armed && events.first() is AccessViolation {
            1
        } else {
            0
        };
        hit + count_fault_transitions(fsm_step(state, events.first()), events.drop_first())
    }
}

/// Once the machine has left `Armed`, no event sequence brings it back:
/// the system never re-arms after a fault.
pub proof fn lemma_never_rearmed(state: FaultState, events: Seq<FaultEvent>)
    requires
        !(state is Armed),
    ensures
        !(run_events(state, events) is Armed),
    decreases events.len(),
{
    if events.len() > 0 {
        lemma_never_rearmed(fsm_step(state, events.first()), events.drop_first());
    }
}

/// A machine that is not `Armed` performs no `Armed -> Faulted`
/// transition, whatever events arrive.
pub proof fn lemma_no_fault_transition_when_disarmed(state: FaultState, events: Seq<FaultEvent>)
    requires
        !(state is Armed),
    ensures
        count_fault_transitions(state, events) == 0,
    decreases events.len(),
{
    if events.len() > 0 {
        lemma_no_fault_transition_when_disarmed(fsm_step(state, events.first()), events.drop_first());
    }
}

/// Any run of the fault state machine performs at most one
/// `Armed -> Faulted` transition: a contained fault is reported exactly
/// once and the machine then stays disarmed forever.
pub proof fn lemma_at_most_one_fault_transition(state: FaultState, events: Seq<FaultEvent>)
    ensures
        count_fault_transitions(state, events) <= 1,
    decreases events.len(),
{
    if events.len() > 0 {
        if state is Armed && events.first() is AccessViolation {
            lemma_no_fault_transition_when_disarmed(
                fsm_step(state, events.first()),
                events.drop_first(),
            );
        } else {
            lemma_at_most_one_fault_transition(fsm_step(state, events.first()), events.drop_first());
        }
    }
}

/// `Halted` is terminal: every event leaves it in place.
pub proof fn lemma_halted_terminal(event: FaultEvent)
    ensures
        fsm_step(FaultState::Halted, event) == FaultState::Halted,
{
}

/// The trap event the hardware delivers for a blocked access.
pub open spec fn violation_event(program_counter: u32, fault_address: Option<u32>) -> FaultEvent {
    FaultEvent::AccessViolation { program_counter, fault_address }
}

/// The record the trap handler captures for a violation at
/// `program_counter`.
pub open spec fn captured_record(
    program_counter: u32,
    fault_address: Option<u32>,
    sequence: u64,
) -> FaultRecord {
    FaultRecord { program_counter, fault_address, sequence }
}

/// The single structured record the trap handler emits: the terminal
/// containment confirmation.
pub open spec fn containment_log(program_counter: u32) -> LogRecord {
    LogRecord {
        severity: Severity::Error,
        component: Component::Reporter,
        message: LogMessage::ContainmentVerified { program_counter },
    }
}

/// The fault state machine together with the fault record it owns.
///
/// The trap context only ever calls `handle_trap`; normal-context code
/// reads the state and the record but never writes them.
pub struct Reporter {
    state: FaultState,
    record: Option<FaultRecord>,
}

impl Reporter {
    pub closed spec fn state(&self) -> FaultState {
        self.state
    }

    pub closed spec fn record(&self) -> Option<FaultRecord> {
        self.record
    }

    /// A record exists exactly from the moment the machine leaves `Armed`.
    pub open spec fn wf(&self) -> bool {
        self.record() is Some <==> !(self.state() is Armed)
    }

    pub fn new() -> (r: Reporter)
        ensures
            r.wf(),
            r.state() == FaultState::Armed,
            r.record() is None,
    {
        Reporter { state: FaultState::Armed, record: None }
    }

    pub fn current_state(&self) -> (r: FaultState)
        ensures
            r == self.state(),
    {
        self.state
    }

    pub fn fault_record(&self) -> (r: Option<FaultRecord>)
        ensures
            r == self.record(),
    {
        self.record
    }

    /// The trap handler: runs on the dedicated trap path, to completion.
    ///
    /// From `Armed` it captures the fault record, emits exactly one
    /// structured record confirming containment, and deterministically
    /// halts: the `Armed -> Faulted -> Halted` path of `fsm_step`. From
    /// any other state it changes nothing and emits nothing, so a stray
    /// delivery cannot fail open or double-report. It reads nothing but
    /// its arguments, so it can never fault itself, and it runs in
    /// bounded time.
    pub fn handle_trap(
        &mut self,
        program_counter: u32,
        fault_address: Option<u32>,
        sequence: u64,
    ) -> (emitted: Option<LogRecord>)
        requires
            old(self).wf(),
        ensures
            final(self).wf(),
            old(self).state() is Armed ==> {
                &&& final(self).state() == fsm_step(
                    fsm_step(old(self).state(), violation_event(program_counter, fault_address)),
                    FaultEvent::HandlerComplete,
                )
                &&& final(self).state() is Halted
                &&& final(self).record() == Some(
                    captured_record(program_counter, fault_address, sequence),
                )
                &&& emitted == Some(containment_log(program_counter))
            },
            !(old(self).state() is Armed) ==> {
                &&& *final(self) == *old(self)
                &&& emitted is None
            },
    {
        match self.state {
            FaultState::Armed => {
                self.state = FaultState::Faulted;
                self.record = Some(FaultRecord { program_counter, fault_address, sequence });
                let report = LogRecord {
                    severity: Severity::Error,
                    component: Component::Reporter,
                    message: LogMessage::ContainmentVerified { program_counter },
                };
                self.state = FaultState::Halted;
                Some(report)
            },
            _ => None,
        }
    }
}

} // verus!
