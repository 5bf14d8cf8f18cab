//! The drop sequencer: one drop of one slot, one hardware action at a time.
//!
//! A sequencer is a small state machine. In every state it asks for exactly
//! one action ([`DropSequencer::action`]); the driver performs it and reports
//! whether it succeeded ([`DropSequencer::step`]). The order of the actions:
//!
//! 1. open the shared latch, if there is one;
//! 2. elevate the scheduling class;
//! 3. energize the vend actuator;
//! 4. confirm: with a rotation sensor, wait for the rotation to start and
//!    then to stop; without one, hold for the configured delay. A failed
//!    energize leaves nothing to confirm, and this step is passed over;
//! 5. de-energize the actuator;
//! 6. on a one-wire slot, hold once more and de-energize a second time;
//! 7. restore the scheduling class.
//!
//! The outcome is the last failure seen, or success where there was none.

use crate::routes::machine::{DropError, DropState};
use crate::scheduler::SchedClass;
use vstd::prelude::*;

verus! {

/// How long the rotation may take to start, in milliseconds.
pub const ROTATION_START_TIMEOUT_MS: u64 = 500;

/// How long the rotation may take to stop, in milliseconds.
pub const ROTATION_STOP_TIMEOUT_MS: u64 = 10_000;

/// The most actions any drop asks for.
pub const MAX_ACTIONS: usize = 8;

/// What a sequencer needs to know of a slot.
#[derive(Clone, Copy, PartialEq, Eq, Debug, Structural)]
pub enum SlotKind {
    /// A device on the one-wire bus.
    OneWire,
    /// A set of digital lines, with or without a rotation sensor.
    Gpio { rotation_sensor: bool },
}

/// The direction of a change on the rotation sensor.
#[derive(Clone, Copy, PartialEq, Eq, Debug, Structural)]
pub enum Edge {
    Rising,
    Falling,
}

/// One thing the driver is asked to do.
#[derive(Clone, Copy, PartialEq, Eq, Debug, Structural)]
pub enum DropAction {
    /// Ask the latch worker to open the shared latch.
    OpenLatch,
    /// Put the process into the real-time scheduling class.
    Elevate,
    /// Write to the vend actuator: on if `energize`, off otherwise.
    Actuate { energize: bool },
    /// Wait for an edge on the rotation sensor, no longer than the timeout.
    AwaitEdge { edge: Edge, timeout_ms: u64 },
    /// Do nothing for so many milliseconds.
    Hold { millis: u64 },
    /// Put the process back into the time-shared scheduling class.
    Restore,
    /// Nothing is left to do: report the outcome.
    Finish,
}

/// Where a drop stands: the action it is waiting on.
#[derive(Clone, Copy, PartialEq, Eq, Debug, Structural)]
pub enum Phase {
    Latch,
    Elevate,
    Energize,
    AwaitStart,
    AwaitStop,
    Dwell,
    DeEnergize,
    SafetyDwell,
    SafetyDeEnergize,
    Restore,
    Finished,
}

/// The state of one drop.
#[derive(Clone, Copy, PartialEq, Eq, Debug, Structural)]
pub struct DropSequencer {
    /// The kind of slot being dropped.
    pub kind: SlotKind,
    /// The configured hold, in milliseconds.
    pub delay: u64,
    /// The action being waited on.
    pub phase: Phase,
    /// The last failure seen so far.
    pub failure: Option<DropError>,
}

impl DropSequencer {
    /// The first state of a drop of a valid slot.
    pub open spec fn spec_begin(kind: SlotKind, latch: bool, delay: u64) -> DropSequencer {
        DropSequencer {
            kind,
            delay,
            phase: if latch {
                Phase::Latch
            } else {
                Phase::Elevate
            },
            failure: None,
        }
    }

    /// The only state of a drop whose slot number names no slot.
    pub open spec fn spec_rejected() -> DropSequencer {
        DropSequencer {
            kind: SlotKind::OneWire,
            delay: 0,
            phase: Phase::Finished,
            failure: Some(DropError::BadSlot),
        }
    }

    /// The action asked for in this state.
    pub open spec fn spec_action(self) -> DropAction {
        match self.phase {
            Phase::Latch => DropAction::OpenLatch,
            Phase::Elevate => DropAction::Elevate,
            Phase::Energize => DropAction::Actuate { energize: true },
            Phase::AwaitStart => DropAction::AwaitEdge {
                edge: Edge::Rising,
                timeout_ms: ROTATION_START_TIMEOUT_MS,
            },
            Phase::AwaitStop => DropAction::AwaitEdge {
                edge: Edge::Falling,
                timeout_ms: ROTATION_STOP_TIMEOUT_MS,
            },
            Phase::Dwell => DropAction::Hold { millis: self.delay },
            Phase::DeEnergize => DropAction::Actuate { energize: false },
            Phase::SafetyDwell => DropAction::Hold { millis: self.delay },
            Phase::SafetyDeEnergize => DropAction::Actuate { energize: false },
            Phase::Restore => DropAction::Restore,
            Phase::Finished => DropAction::Finish,
        }
    }

    /// The phase that follows, given whether the action succeeded.
    pub open spec fn spec_next_phase(self, ok: bool) -> Phase {
        match self.phase {
            Phase::Latch => Phase::Elevate,
            Phase::Elevate => Phase::Energize,
            Phase::Energize => if !ok {
                Phase::DeEnergize
            } else if self.kind == (SlotKind::Gpio { rotation_sensor: true }) {
                Phase::AwaitStart
            } else {
                Phase::Dwell
            },
            Phase::AwaitStart => Phase::AwaitStop,
            Phase::AwaitStop => Phase::DeEnergize,
            Phase::Dwell => Phase::DeEnergize,
            Phase::DeEnergize => if self.kind == SlotKind::OneWire {
                Phase::SafetyDwell
            } else {
                Phase::Restore
            },
            Phase::SafetyDwell => Phase::SafetyDeEnergize,
            Phase::SafetyDeEnergize => Phase::Restore,
            Phase::Restore => Phase::Finished,
            Phase::Finished => Phase::Finished,
        }
    }

    /// The last failure seen once the action has been answered. A write to
    /// the actuator that fails is a motor failure; a rotation that does not
    /// stop in time is a timeout; a rotation that is not seen to start is
    /// no failure, and no other action can fail.
    pub open spec fn spec_next_failure(self, ok: bool) -> Option<DropError> {
        if ok {
            self.failure
        } else {
            match self.phase {
                Phase::Energize | Phase::DeEnergize | Phase::SafetyDeEnergize => Some(
                    DropError::MotorFailed,
                ),
                Phase::AwaitStop => Some(DropError::MotorTimeout),
                _ => self.failure,
            }
        }
    }

    /// The state that follows, given whether the action succeeded.
    pub open spec fn spec_step(self, ok: bool) -> DropSequencer {
        DropSequencer {
            kind: self.kind,
            delay: self.delay,
            phase: self.spec_next_phase(ok),
            failure: self.spec_next_failure(ok),
        }
    }

    /// The outcome as it stands: the last failure, or success.
    pub open spec fn spec_outcome(self) -> Result<DropState, DropError> {
        match self.failure {
            Some(error) => Err(error),
            None => Ok(DropState::Success),
        }
    }

    /// The actions performed when the driver answers with `answers`, the
    /// first answer to the first action, until the drop is finished or the
    /// answers run out.
    pub open spec fn transcript(self, answers: Seq<bool>) -> Seq<DropAction>
        decreases answers.len(),
    {
        if self.phase == Phase::Finished || answers.len() == 0 {
            Seq::empty()
        } else {
            seq![self.spec_action()] + self.spec_step(answers[0]).transcript(answers.skip(1))
        }
    }

    /// The state reached when the driver answers with `answers`, the first
    /// answer to the first action, until the drop is finished or the answers
    /// run out.
    pub open spec fn conclude(self, answers: Seq<bool>) -> DropSequencer
        decreases answers.len(),
    {
        if self.phase == Phase::Finished || answers.len() == 0 {
            self
        } else {
            self.spec_step(answers[0]).conclude(answers.skip(1))
        }
    }

    /// Starts a drop of a valid slot.
    pub fn begin(kind: SlotKind, latch: bool, delay: u64) -> (start: DropSequencer)
        ensures
            start == Self::spec_begin(kind, latch, delay),
    {
        DropSequencer {
            kind,
            delay,
            phase: if latch {
                Phase::Latch
            } else {
                Phase::Elevate
            },
            failure: None,
        }
    }

    /// The drop of a slot number that names no slot: finished before it
    /// began, with `BadSlot`.
    pub fn rejected() -> (start: DropSequencer)
        ensures
            start == Self::spec_rejected(),
    {
        DropSequencer {
            kind: SlotKind::OneWire,
            delay: 0,
            phase: Phase::Finished,
            failure: Some(DropError::BadSlot),
        }
    }

    /// The action to perform now.
    pub fn action(&self) -> (action: DropAction)
        ensures
            action == self.spec_action(),
    {
        match self.phase {
            Phase::Latch => DropAction::OpenLatch,
            Phase::Elevate => DropAction::Elevate,
            Phase::Energize => DropAction::Actuate { energize: true },
            Phase::AwaitStart => DropAction::AwaitEdge {
                edge: Edge::Rising,
                timeout_ms: ROTATION_START_TIMEOUT_MS,
            },
            Phase::AwaitStop => DropAction::AwaitEdge {
                edge: Edge::Falling,
                timeout_ms: ROTATION_STOP_TIMEOUT_MS,
            },
            Phase::Dwell | Phase::SafetyDwell => DropAction::Hold { millis: self.delay },
            Phase::DeEnergize | Phase::SafetyDeEnergize => DropAction::Actuate { energize: false },
            Phase::Restore => DropAction::Restore,
            Phase::Finished => DropAction::Finish,
        }
    }

    /// Takes the answer to the current action and moves on. `ok` says
    /// whether the action succeeded: whether the write went through, or the
    /// edge was seen before the timeout. A finished drop stays as it is.
    pub fn step(self, ok: bool) -> (next: DropSequencer)
        ensures
            next == self.spec_step(ok),
    {
        let phase = match self.phase {
            Phase::Latch => Phase::Elevate,
            Phase::Elevate => Phase::Energize,
            Phase::Energize => {
                if !ok {
                    Phase::DeEnergize
                } else {
                    match self.kind {
                        SlotKind::Gpio { rotation_sensor: true } => Phase::AwaitStart,
                        _ => Phase::Dwell,
                    }
                }
            },
            Phase::AwaitStart => Phase::AwaitStop,
            Phase::AwaitStop | Phase::Dwell => Phase::DeEnergize,
            Phase::DeEnergize => match self.kind {
                SlotKind::OneWire => Phase::SafetyDwell,
                SlotKind::Gpio { .. } => Phase::Restore,
            },
            Phase::SafetyDwell => Phase::SafetyDeEnergize,
            Phase::SafetyDeEnergize => Phase::Restore,
            Phase::Restore | Phase::Finished => Phase::Finished,
        };
        let failure = if ok {
            self.failure
        } else {
            match self.phase {
                Phase::Energize | Phase::DeEnergize | Phase::SafetyDeEnergize => Some(
                    DropError::MotorFailed,
                ),
                Phase::AwaitStop => Some(DropError::MotorTimeout),
                _ => self.failure,
            }
        };
        DropSequencer { kind: self.kind, delay: self.delay, phase, failure }
    }

    /// Whether nothing is left to do.
    pub fn is_finished(&self) -> (done: bool)
        ensures
            done <==> self.phase == Phase::Finished,
            done <==> self.spec_action() == DropAction::Finish,
    {
        match self.phase {
            Phase::Finished => true,
            _ => false,
        }
    }

    /// The outcome as it stands; the outcome of the drop once it is finished.
    pub fn outcome(&self) -> (outcome: Result<DropState, DropError>)
        ensures
            outcome == self.spec_outcome(),
    {
        match self.failure {
            Some(error) => Err(error),
            None => Ok(DropState::Success),
        }
    }
}

/// The scheduling class in force once `action` has been performed in class
/// `class`.
pub open spec fn class_after(class: SchedClass, action: DropAction) -> SchedClass {
    match action {
        DropAction::Elevate => SchedClass::spec_realtime(),
        DropAction::Restore => SchedClass::spec_time_shared(),
        _ => class,
    }
}

/// The scheduling class in force once `actions` have been performed in
/// order, starting in class `class`.
pub open spec fn class_after_all(class: SchedClass, actions: Seq<DropAction>) -> SchedClass
    decreases actions.len(),
{
    if actions.len() == 0 {
        class
    } else {
        class_after(class_after_all(class, actions.drop_last()), actions.last())
    }
}

/// Whether `action` occurs in `actions` at `at` and nowhere else.
pub open spec fn only_at(actions: Seq<DropAction>, action: DropAction, at: int) -> bool {
    &&& 0 <= at < actions.len()
    &&& forall|i: int| 0 <= i < actions.len() ==> (#[trigger] actions[i] == action <==> i == at)
}

/// Whether `action` drives or watches the motor.
pub open spec fn touches_motor(action: DropAction) -> bool {
    action is Actuate || action is AwaitEdge || action is Hold
}

/// How long `action` may keep the driver waiting, in milliseconds.
pub open spec fn wait_of(action: DropAction) -> nat {
    match action {
        DropAction::AwaitEdge { timeout_ms, .. } => timeout_ms as nat,
        DropAction::Hold { millis } => millis as nat,
        _ => 0,
    }
}

/// How long `actions` may keep the driver waiting, all together.
pub open spec fn total_wait(actions: Seq<DropAction>) -> nat
    decreases actions.len(),
{
    if actions.len() == 0 {
        0
    } else {
        total_wait(actions.drop_last()) + wait_of(actions.last())
    }
}

} // verus!
