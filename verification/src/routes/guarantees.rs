//! What holds of every drop, whatever the hardware answers.
//!
//! The theorems here speak of a drop from its first state to its last, over
//! every sequence of answers a driver could give. An answer is a `bool`: the
//! `i`-th answer says whether the `i`-th action succeeded.

use crate::routes::machine::{DropError, DropState};
use crate::routes::sequencer::{
    class_after_all, only_at, total_wait, touches_motor, DropAction, DropSequencer, Edge, Phase,
    SlotKind, MAX_ACTIONS, ROTATION_START_TIMEOUT_MS, ROTATION_STOP_TIMEOUT_MS,
};
use crate::scheduler::SchedClass;
use vstd::prelude::*;

verus! {

/// What precedes the energize: the latch, if there is one, and the
/// elevation.
pub open spec fn opening(latch: bool) -> Seq<DropAction> {
    if latch {
        seq![DropAction::OpenLatch, DropAction::Elevate]
    } else {
        seq![DropAction::Elevate]
    }
}

/// How a drop is confirmed once the actuator is energized; nothing where the
/// energize failed.
pub open spec fn confirmation(kind: SlotKind, delay: u64, energized: bool) -> Seq<DropAction> {
    if !energized {
        Seq::empty()
    } else if kind == (SlotKind::Gpio { rotation_sensor: true }) {
        seq![
            DropAction::AwaitEdge { edge: Edge::Rising, timeout_ms: ROTATION_START_TIMEOUT_MS },
            DropAction::AwaitEdge { edge: Edge::Falling, timeout_ms: ROTATION_STOP_TIMEOUT_MS },
        ]
    } else {
        seq![DropAction::Hold { millis: delay }]
    }
}

/// How a drop ends: the actuator is switched off, on a one-wire slot a
/// second time after another hold, and the scheduling class is restored.
pub open spec fn closing(kind: SlotKind, delay: u64) -> Seq<DropAction> {
    if kind == SlotKind::OneWire {
        seq![
            DropAction::Actuate { energize: false },
            DropAction::Hold { millis: delay },
            DropAction::Actuate { energize: false },
            DropAction::Restore,
        ]
    } else {
        seq![DropAction::Actuate { energize: false }, DropAction::Restore]
    }
}

/// Every action of a drop, in order. `energized` says whether the energize
/// succeeded: no other answer changes what is done.
pub open spec fn script(kind: SlotKind, latch: bool, delay: u64, energized: bool) -> Seq<
    DropAction,
> {
    opening(latch) + seq![DropAction::Actuate { energize: true }] + confirmation(
        kind,
        delay,
        energized,
    ) + closing(kind, delay)
}

/// Where in a drop the actuator is energized.
pub open spec fn energize_at(latch: bool) -> int {
    if latch {
        2
    } else {
        1
    }
}

/// The last failure once the confirmation is over: a failed energize is a
/// motor failure; a rotation that did not stop in time is a timeout.
pub open spec fn failure_after_confirmation(
    kind: SlotKind,
    energized: bool,
    stopped: bool,
) -> Option<DropError> {
    if !energized {
        Some(DropError::MotorFailed)
    } else if kind == (SlotKind::Gpio { rotation_sensor: true }) && !stopped {
        Some(DropError::MotorTimeout)
    } else {
        None
    }
}

/// The last failure once the actuator has been switched off: a failed
/// de-energize is a motor failure and overrides what came before; so does a
/// failed second de-energize of a one-wire slot.
pub open spec fn failure_after_closing(
    kind: SlotKind,
    before: Option<DropError>,
    switched_off: bool,
    switched_off_again: bool,
) -> Option<DropError> {
    if !switched_off || (kind == SlotKind::OneWire && !switched_off_again) {
        Some(DropError::MotorFailed)
    } else {
        before
    }
}

/// The failure a drop of a valid slot ends with, from the answers that
/// count: to the energize, to the wait for the rotation to stop, to the
/// de-energize and to the second de-energize. `None` is success.
pub open spec fn verdict(
    kind: SlotKind,
    energized: bool,
    stopped: bool,
    switched_off: bool,
    switched_off_again: bool,
) -> Option<DropError> {
    failure_after_closing(
        kind,
        failure_after_confirmation(kind, energized, stopped),
        switched_off,
        switched_off_again,
    )
}

/// Where in a drop the actuator is switched off, given where it is energized
/// and whether that succeeded.
pub open spec fn de_energize_at(kind: SlotKind, on: int, energized: bool) -> int {
    on + 1 + confirmation(kind, 0, energized).len()
}

proof fn lemma_restore(state: DropSequencer, answers: Seq<bool>)
    requires
        state.phase == Phase::Restore,
        answers.len() >= 1,
    ensures
        state.transcript(answers) == seq![DropAction::Restore],
        state.conclude(answers) == (DropSequencer { phase: Phase::Finished, ..state }),
{
    reveal_with_fuel(DropSequencer::transcript, 2);
    reveal_with_fuel(DropSequencer::conclude, 2);
    assert(state.transcript(answers) =~= seq![DropAction::Restore]);
}

proof fn lemma_closing(state: DropSequencer, answers: Seq<bool>)
    requires
        state.phase == Phase::DeEnergize,
        answers.len() >= closing(state.kind, state.delay).len(),
    ensures
        state.transcript(answers) == closing(state.kind, state.delay),
        state.conclude(answers) == (DropSequencer {
            phase: Phase::Finished,
            failure: failure_after_closing(state.kind, state.failure, answers[0], answers[2]),
            ..state
        }),
{
    reveal_with_fuel(DropSequencer::transcript, 2);
    reveal_with_fuel(DropSequencer::conclude, 2);
    let off = state.spec_step(answers[0]);
    if state.kind == SlotKind::OneWire {
        let held = off.spec_step(answers[1]);
        let off_again = held.spec_step(answers[2]);
        let rest = answers.skip(1).skip(1);
        assert(answers.skip(1)[0] == answers[1]);
        assert(rest[0] == answers[2]);
        assert(off.conclude(answers.skip(1)) == held.conclude(rest));
        assert(held.conclude(rest) == off_again.conclude(rest.skip(1)));
        assert(off.transcript(answers.skip(1)) == seq![off.spec_action()] + held.transcript(rest));
        assert(held.transcript(rest) == seq![held.spec_action()] + off_again.transcript(
            rest.skip(1),
        ));
        lemma_restore(off_again, rest.skip(1));
        assert(state.transcript(answers) =~= closing(state.kind, state.delay));
    } else {
        lemma_restore(off, answers.skip(1));
        assert(state.transcript(answers) =~= closing(state.kind, state.delay));
    }
}

proof fn lemma_energize(state: DropSequencer, answers: Seq<bool>)
    requires
        state.phase == Phase::Energize,
        state.failure.is_none(),
        answers.len() >= 6,
    ensures
        state.transcript(answers) == seq![DropAction::Actuate { energize: true }] + confirmation(
            state.kind,
            state.delay,
            answers[0],
        ) + closing(state.kind, state.delay),
        state.conclude(answers).phase == Phase::Finished,
        state.conclude(answers).failure == verdict(
            state.kind,
            answers[0],
            answers[2],
            answers[de_energize_at(state.kind, 0, answers[0])],
            answers[de_energize_at(state.kind, 0, answers[0]) + 2],
        ),
{
    reveal_with_fuel(DropSequencer::transcript, 2);
    reveal_with_fuel(DropSequencer::conclude, 2);
    let expected = seq![DropAction::Actuate { energize: true }] + confirmation(
        state.kind,
        state.delay,
        answers[0],
    ) + closing(state.kind, state.delay);
    let on = state.spec_step(answers[0]);
    let rest = answers.skip(1);
    if !answers[0] {
        lemma_closing(on, rest);
        assert(state.transcript(answers) =~= expected);
    } else if state.kind == (SlotKind::Gpio { rotation_sensor: true }) {
        let started = on.spec_step(rest[0]);
        let stopped = started.spec_step(rest.skip(1)[0]);
        assert(rest.skip(1)[0] == answers[2]);
        assert(on.conclude(rest) == started.conclude(rest.skip(1)));
        assert(started.conclude(rest.skip(1)) == stopped.conclude(rest.skip(1).skip(1)));
        assert(on.transcript(rest) == seq![on.spec_action()] + started.transcript(rest.skip(1)));
        assert(started.transcript(rest.skip(1)) == seq![started.spec_action()]
            + stopped.transcript(rest.skip(1).skip(1)));
        lemma_closing(stopped, rest.skip(1).skip(1));
        assert(state.transcript(answers) =~= expected);
    } else {
        let held = on.spec_step(rest[0]);
        assert(on.conclude(rest) == held.conclude(rest.skip(1)));
        assert(on.transcript(rest) == seq![on.spec_action()] + held.transcript(rest.skip(1)));
        lemma_closing(held, rest.skip(1));
        assert(state.transcript(answers) =~= expected);
    }
}

/// A drop of a valid slot performs its script and then is finished, with the
/// failure that the verdict names, however the hardware answers.
pub proof fn lemma_drop_follows_script(
    kind: SlotKind,
    latch: bool,
    delay: u64,
    answers: Seq<bool>,
)
    requires
        answers.len() >= MAX_ACTIONS,
    ensures
        ({
            let start = DropSequencer::spec_begin(kind, latch, delay);
            let on = energize_at(latch);
            let off = de_energize_at(kind, on, answers[on]);
            &&& start.transcript(answers) == script(kind, latch, delay, answers[on])
            &&& start.conclude(answers).phase == Phase::Finished
            &&& start.conclude(answers).failure == verdict(
                kind,
                answers[on],
                answers[on + 2],
                answers[off],
                answers[off + 2],
            )
        }),
{
    reveal_with_fuel(DropSequencer::transcript, 3);
    reveal_with_fuel(DropSequencer::conclude, 3);
    let start = DropSequencer::spec_begin(kind, latch, delay);
    let on = energize_at(latch);
    let expected = script(kind, latch, delay, answers[on]);
    if latch {
        let rest = answers.skip(1).skip(1);
        let state = start.spec_step(answers[0]).spec_step(answers[1]);
        lemma_energize(state, rest);
        assert(start.transcript(answers) =~= expected);
    } else {
        let rest = answers.skip(1);
        let state = start.spec_step(answers[0]);
        lemma_energize(state, rest);
        assert(start.transcript(answers) =~= expected);
    }
}

/// A drop whose slot number names no slot is over before it begins: it asks
/// for no action, whatever it is answered, and its outcome is `BadSlot`.
pub proof fn lemma_rejected_drop_does_nothing(answers: Seq<bool>)
    ensures
        DropSequencer::spec_rejected().spec_action() == DropAction::Finish,
        DropSequencer::spec_rejected().transcript(answers) == Seq::<DropAction>::empty(),
        DropSequencer::spec_rejected().conclude(answers) == DropSequencer::spec_rejected(),
        DropSequencer::spec_rejected().spec_outcome() == Err::<DropState, DropError>(
            DropError::BadSlot,
        ),
{
}

/// On a slot of digital lines without a rotation sensor the actuator is
/// energized once and de-energized once, later; the drop succeeds if and
/// only if both writes went through, and fails with `MotorFailed` otherwise.
pub proof fn lemma_gpio_without_sensor(latch: bool, delay: u64, answers: Seq<bool>)
    requires
        answers.len() >= MAX_ACTIONS,
    ensures
        ({
            let start = DropSequencer::spec_begin(
                SlotKind::Gpio { rotation_sensor: false },
                latch,
                delay,
            );
            let actions = start.transcript(answers);
            let outcome = start.conclude(answers).spec_outcome();
            let on = energize_at(latch);
            let off = actions.len() - 2;
            &&& only_at(actions, DropAction::Actuate { energize: true }, on)
            &&& only_at(actions, DropAction::Actuate { energize: false }, off)
            &&& on < off
            &&& outcome is Ok <==> answers[on] && answers[off]
            &&& outcome is Err ==> outcome == Err::<DropState, DropError>(DropError::MotorFailed)
        }),
{
    lemma_drop_follows_script(SlotKind::Gpio { rotation_sensor: false }, latch, delay, answers);
}

/// On a slot with a rotation sensor an energized actuator is followed by a
/// wait for the rotation to start, a wait for it to stop and one
/// de-energize. If the rotation does not stop in time and the de-energize
/// goes through, the drop fails with `MotorTimeout`, although the energize
/// succeeded; a failed de-energize makes it `MotorFailed`; whether the
/// rotation was seen to start changes nothing. Where the energize failed
/// nothing is waited for and the drop fails with `MotorFailed`.
pub proof fn lemma_gpio_with_sensor(latch: bool, delay: u64, answers: Seq<bool>)
    requires
        answers.len() >= MAX_ACTIONS,
    ensures
        ({
            let start = DropSequencer::spec_begin(
                SlotKind::Gpio { rotation_sensor: true },
                latch,
                delay,
            );
            let actions = start.transcript(answers);
            let outcome = start.conclude(answers).spec_outcome();
            let on = energize_at(latch);
            &&& only_at(actions, DropAction::Actuate { energize: true }, on)
            &&& answers[on] ==> {
                &&& actions[on + 1] == DropAction::AwaitEdge {
                    edge: Edge::Rising,
                    timeout_ms: ROTATION_START_TIMEOUT_MS,
                }
                &&& actions[on + 2] == DropAction::AwaitEdge {
                    edge: Edge::Falling,
                    timeout_ms: ROTATION_STOP_TIMEOUT_MS,
                }
                &&& only_at(actions, DropAction::Actuate { energize: false }, on + 3)
                &&& !answers[on + 2] && answers[on + 3] ==> outcome == Err::<DropState, DropError>(
                    DropError::MotorTimeout,
                )
                &&& !answers[on + 3] ==> outcome == Err::<DropState, DropError>(
                    DropError::MotorFailed,
                )
                &&& answers[on + 2] && answers[on + 3] ==> outcome == Ok::<DropState, DropError>(
                    DropState::Success,
                )
            }
            &&& !answers[on] ==> {
                &&& only_at(actions, DropAction::Actuate { energize: false }, on + 1)
                &&& forall|i: int| 0 <= i < actions.len() ==> !(#[trigger] actions[i] is AwaitEdge)
                &&& outcome == Err::<DropState, DropError>(DropError::MotorFailed)
            }
        }),
{
    lemma_drop_follows_script(SlotKind::Gpio { rotation_sensor: true }, latch, delay, answers);
}

/// On a one-wire slot the actuator is de-energized twice, the second time
/// after a hold of the configured delay; an energized actuator is held for
/// that delay before the first time too. If the second de-energize fails the
/// drop fails with `MotorFailed`, whether or not the first one went through.
/// The drop succeeds if and only if all three writes went through.
pub proof fn lemma_one_wire(latch: bool, delay: u64, answers: Seq<bool>)
    requires
        answers.len() >= MAX_ACTIONS,
    ensures
        ({
            let start = DropSequencer::spec_begin(SlotKind::OneWire, latch, delay);
            let actions = start.transcript(answers);
            let outcome = start.conclude(answers).spec_outcome();
            let on = energize_at(latch);
            let second = actions.len() - 2;
            let first = second - 2;
            &&& only_at(actions, DropAction::Actuate { energize: true }, on)
            &&& on < first
            &&& forall|i: int|
                0 <= i < actions.len() ==> (#[trigger] actions[i] == DropAction::Actuate {
                    energize: false,
                } <==> i == first || i == second)
            &&& actions[second - 1] == DropAction::Hold { millis: delay }
            &&& answers[on] ==> actions[first - 1] == DropAction::Hold { millis: delay }
            &&& !answers[second] ==> outcome == Err::<DropState, DropError>(DropError::MotorFailed)
            &&& outcome is Ok <==> answers[on] && answers[first] && answers[second]
            &&& outcome is Err ==> outcome == Err::<DropState, DropError>(DropError::MotorFailed)
        }),
{
    lemma_drop_follows_script(SlotKind::OneWire, latch, delay, answers);
}

/// The scheduling class is elevated once, before the actuator is first
/// written to, and restored once, as the last action of the drop: every
/// action that drives or watches the motor lies between the two.
pub proof fn lemma_motor_runs_elevated(
    kind: SlotKind,
    latch: bool,
    delay: u64,
    answers: Seq<bool>,
)
    requires
        answers.len() >= MAX_ACTIONS,
    ensures
        ({
            let actions = DropSequencer::spec_begin(kind, latch, delay).transcript(answers);
            let elevate = energize_at(latch) - 1;
            let restore = actions.len() - 1;
            &&& only_at(actions, DropAction::Elevate, elevate)
            &&& only_at(actions, DropAction::Restore, restore)
            &&& forall|i: int|
                0 <= i < actions.len() && touches_motor(#[trigger] actions[i]) ==> elevate < i
                    < restore
        }),
{
    lemma_drop_follows_script(kind, latch, delay, answers);
}

/// A drop ends in the time-shared scheduling class, whether it succeeds or
/// fails and whatever class it began in: a drop begun in the time-shared
/// class leaves the process in the class it found it in.
pub proof fn lemma_drop_restores_scheduling_class(
    kind: SlotKind,
    latch: bool,
    delay: u64,
    answers: Seq<bool>,
    before: SchedClass,
)
    requires
        answers.len() >= MAX_ACTIONS,
    ensures
        class_after_all(before, DropSequencer::spec_begin(kind, latch, delay).transcript(answers))
            == SchedClass::spec_time_shared(),
        before == SchedClass::spec_time_shared() ==> class_after_all(
            before,
            DropSequencer::spec_begin(kind, latch, delay).transcript(answers),
        ) == before,
{
    lemma_drop_follows_script(kind, latch, delay, answers);
    let actions = DropSequencer::spec_begin(kind, latch, delay).transcript(answers);
    assert(actions.last() == DropAction::Restore);
}

/// A rejected drop leaves the scheduling class as it found it, whatever it
/// was.
pub proof fn lemma_rejected_drop_keeps_scheduling_class(answers: Seq<bool>, before: SchedClass)
    ensures
        class_after_all(before, DropSequencer::spec_rejected().transcript(answers)) == before,
{
}

/// How long a drop keeps its driver waiting, all holds and timeouts
/// together, in milliseconds.
pub open spec fn longest_wait(kind: SlotKind, delay: u64, energized: bool) -> nat {
    let confirming: nat = if !energized {
        0
    } else if kind == (SlotKind::Gpio { rotation_sensor: true }) {
        (ROTATION_START_TIMEOUT_MS + ROTATION_STOP_TIMEOUT_MS) as nat
    } else {
        delay as nat
    };
    let closing: nat = if kind == SlotKind::OneWire {
        delay as nat
    } else {
        0
    };
    confirming + closing
}

proof fn lemma_total_wait_push(actions: Seq<DropAction>, action: DropAction)
    ensures
        total_wait(actions.push(action)) == total_wait(actions)
            + crate::routes::sequencer::wait_of(action),
{
    assert(actions.push(action).drop_last() =~= actions);
}

proof fn lemma_total_wait_add(first: Seq<DropAction>, second: Seq<DropAction>)
    ensures
        total_wait(first + second) == total_wait(first) + total_wait(second),
    decreases second.len(),
{
    if second.len() == 0 {
        assert(first + second =~= first);
    } else {
        lemma_total_wait_add(first, second.drop_last());
        assert((first + second).drop_last() =~= first + second.drop_last());
    }
}

/// No drop hangs: it is over after at most eight actions, and all its holds
/// and timeouts together last as long as `longest_wait` says, which is no
/// more than twice the configured delay or, with a rotation sensor, ten and
/// a half seconds.
pub proof fn lemma_drop_is_bounded(kind: SlotKind, latch: bool, delay: u64, answers: Seq<bool>)
    requires
        answers.len() >= MAX_ACTIONS,
    ensures
        ({
            let start = DropSequencer::spec_begin(kind, latch, delay);
            let actions = start.transcript(answers);
            &&& start.conclude(answers).phase == Phase::Finished
            &&& actions.len() <= MAX_ACTIONS
            &&& total_wait(actions) == longest_wait(kind, delay, answers[energize_at(latch)])
            &&& total_wait(actions) <= 2 * delay + ROTATION_START_TIMEOUT_MS
                + ROTATION_STOP_TIMEOUT_MS
        }),
{
    lemma_drop_follows_script(kind, latch, delay, answers);
    let energized = answers[energize_at(latch)];
    let nothing = Seq::<DropAction>::empty();
    let on = DropAction::Actuate { energize: true };
    let off = DropAction::Actuate { energize: false };
    let hold = DropAction::Hold { millis: delay };
    let rise = DropAction::AwaitEdge { edge: Edge::Rising, timeout_ms: ROTATION_START_TIMEOUT_MS };
    let fall = DropAction::AwaitEdge { edge: Edge::Falling, timeout_ms: ROTATION_STOP_TIMEOUT_MS };
    assert(total_wait(nothing) == 0);
    assert(total_wait(opening(latch)) == 0) by {
        lemma_total_wait_push(nothing, DropAction::OpenLatch);
        lemma_total_wait_push(nothing, DropAction::Elevate);
        lemma_total_wait_push(nothing.push(DropAction::OpenLatch), DropAction::Elevate);
        assert(opening(latch) =~= if latch {
            nothing.push(DropAction::OpenLatch).push(DropAction::Elevate)
        } else {
            nothing.push(DropAction::Elevate)
        });
    }
    assert(total_wait(seq![on]) == 0) by {
        lemma_total_wait_push(nothing, on);
        assert(seq![on] =~= nothing.push(on));
    }
    assert(total_wait(confirmation(kind, delay, energized)) == longest_wait(
        kind,
        delay,
        energized,
    ) - longest_wait(kind, delay, false)) by {
        lemma_total_wait_push(nothing, hold);
        lemma_total_wait_push(nothing, rise);
        lemma_total_wait_push(nothing.push(rise), fall);
        assert(confirmation(kind, delay, energized) =~= if !energized {
            nothing
        } else if kind == (SlotKind::Gpio { rotation_sensor: true }) {
            nothing.push(rise).push(fall)
        } else {
            nothing.push(hold)
        });
    }
    assert(total_wait(closing(kind, delay)) == longest_wait(kind, delay, false)) by {
        lemma_total_wait_push(nothing, off);
        lemma_total_wait_push(nothing.push(off), DropAction::Restore);
        lemma_total_wait_push(nothing.push(off), hold);
        lemma_total_wait_push(nothing.push(off).push(hold), off);
        lemma_total_wait_push(nothing.push(off).push(hold).push(off), DropAction::Restore);
        assert(closing(kind, delay) =~= if kind == SlotKind::OneWire {
            nothing.push(off).push(hold).push(off).push(DropAction::Restore)
        } else {
            nothing.push(off).push(DropAction::Restore)
        });
    }
    lemma_total_wait_add(opening(latch), seq![on]);
    lemma_total_wait_add(opening(latch) + seq![on], confirmation(kind, delay, energized));
    lemma_total_wait_add(
        opening(latch) + seq![on] + confirmation(kind, delay, energized),
        closing(kind, delay),
    );
}

} // verus!
