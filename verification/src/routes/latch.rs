//! The debounce worker of the shared latch.
//!
//! One worker owns the latch line. Callers ask for the latch to stay open
//! until a deadline; the worker turns any number of overlapping requests
//! into one opening:
//!
//! 1. wait for a request;
//! 2. if its deadline has passed, forget it and wait again;
//! 3. energize the line and sleep until the deadline;
//! 4. take the requests that came in meanwhile, one by one: a deadline that
//!    has passed is forgotten, any other is slept until;
//! 5. when none is left, de-energize the line and wait again.
//!
//! The worker is a state machine: in every state it asks for one action
//! ([`LatchWorker::action`]) and is told how it went
//! ([`LatchWorker::step`]). Times are milliseconds on a clock that never
//! runs backwards.

use vstd::prelude::*;

verus! {

/// Where the worker stands: the action it is waiting on.
#[derive(Clone, Copy, PartialEq, Eq, Debug, Structural)]
pub enum LatchPhase {
    Waiting,
    Energizing,
    Sleeping,
    Polling,
    DeEnergizing,
}

/// One thing the driver is asked to do.
#[derive(Clone, Copy, PartialEq, Eq, Debug, Structural)]
pub enum LatchAction {
    /// Wait until a request comes in, then read the clock.
    Receive,
    /// Energize the line.
    Energize,
    /// Do nothing for so many milliseconds.
    Sleep { millis: u64 },
    /// Take a request if one has come in, and read the clock; do not wait.
    Poll,
    /// De-energize the line.
    DeEnergize,
}

/// How an action went.
#[derive(Clone, Copy, PartialEq, Eq, Debug, Structural)]
pub enum LatchEvent {
    /// The line was written, or the sleep is over.
    Done,
    /// No request has come in.
    Empty,
    /// A request to keep the latch open until `deadline` was taken, and the
    /// clock then read `now`.
    Request { deadline: u64, now: u64 },
}

/// The state of the worker.
#[derive(Clone, Copy, PartialEq, Eq, Debug, Structural)]
pub struct LatchWorker {
    /// The action being waited on.
    pub phase: LatchPhase,
    /// The sleep that is to come or under way, in milliseconds.
    pub pause: u64,
    /// The deadline of the request that was honoured last; 0 while the line
    /// is de-energized.
    pub until: u64,
}

/// An event and the time at which it reached the worker.
pub struct Tick {
    pub event: LatchEvent,
    pub at: u64,
}

/// Whether an event is a request whose deadline has not passed.
pub open spec fn fresh(event: LatchEvent) -> bool {
    event matches LatchEvent::Request { deadline, now } && now <= deadline
}

impl LatchWorker {
    /// The worker before any request: waiting, the line de-energized.
    pub open spec fn spec_new() -> LatchWorker {
        LatchWorker { phase: LatchPhase::Waiting, pause: 0, until: 0 }
    }

    /// The state in which a fresh request has been honoured: the sleep to
    /// come lasts from `now` to the deadline.
    pub open spec fn honouring(phase: LatchPhase, deadline: u64, now: u64) -> LatchWorker {
        LatchWorker { phase, pause: (deadline - now) as u64, until: deadline }
    }

    /// The action asked for in this state.
    pub open spec fn spec_action(self) -> LatchAction {
        match self.phase {
            LatchPhase::Waiting => LatchAction::Receive,
            LatchPhase::Energizing => LatchAction::Energize,
            LatchPhase::Sleeping => LatchAction::Sleep { millis: self.pause },
            LatchPhase::Polling => LatchAction::Poll,
            LatchPhase::DeEnergizing => LatchAction::DeEnergize,
        }
    }

    /// The state that follows `event`.
    ///
    /// While waiting, a fresh request makes the worker energize the line;
    /// anything else leaves it waiting. Once the line is energized the
    /// worker sleeps, and after each sleep it polls: a fresh request makes
    /// it sleep until the new deadline, a request whose deadline has passed
    /// is forgotten, and when nothing is left the line is de-energized.
    pub open spec fn spec_step(self, event: LatchEvent) -> LatchWorker {
        match self.phase {
            LatchPhase::Waiting => match event {
                LatchEvent::Request { deadline, now } if now <= deadline => Self::honouring(
                    LatchPhase::Energizing,
                    deadline,
                    now,
                ),
                _ => self,
            },
            LatchPhase::Energizing => LatchWorker { phase: LatchPhase::Sleeping, ..self },
            LatchPhase::Sleeping => LatchWorker { phase: LatchPhase::Polling, pause: 0, ..self },
            LatchPhase::Polling => match event {
                LatchEvent::Request { deadline, now } if now <= deadline => Self::honouring(
                    LatchPhase::Sleeping,
                    deadline,
                    now,
                ),
                LatchEvent::Empty => LatchWorker { phase: LatchPhase::DeEnergizing, ..self },
                _ => self,
            },
            LatchPhase::DeEnergizing => Self::spec_new(),
        }
    }

    /// The state reached from this one by the events of `ticks`, in order.
    pub open spec fn after(self, ticks: Seq<Tick>) -> LatchWorker
        decreases ticks.len(),
    {
        if ticks.len() == 0 {
            self
        } else {
            self.after(ticks.drop_last()).spec_step(ticks.last().event)
        }
    }

    /// Whether the clock and the sleeps keep their word throughout `ticks`:
    /// each tick is punctual for the state it reaches.
    pub open spec fn honest(self, ticks: Seq<Tick>) -> bool
        decreases ticks.len(),
    {
        ticks.len() == 0 || {
            &&& self.honest(ticks.drop_last())
            &&& punctual(self.after(ticks.drop_last()), clock(ticks.drop_last()), ticks.last())
        }
    }

    /// What holds of the worker at time `at` in every honest run: a sleep to
    /// come or under way ends no earlier than the deadline honoured last,
    /// and a sleep that is over ended no earlier.
    pub open spec fn on_time(self, at: u64) -> bool {
        match self.phase {
            LatchPhase::Waiting => true,
            LatchPhase::Energizing | LatchPhase::Sleeping => at + self.pause >= self.until,
            LatchPhase::Polling | LatchPhase::DeEnergizing => at >= self.until,
        }
    }

    /// A worker before any request.
    pub fn new() -> (worker: LatchWorker)
        ensures
            worker == Self::spec_new(),
    {
        LatchWorker { phase: LatchPhase::Waiting, pause: 0, until: 0 }
    }

    /// The action to perform now.
    pub fn action(&self) -> (action: LatchAction)
        ensures
            action == self.spec_action(),
    {
        match self.phase {
            LatchPhase::Waiting => LatchAction::Receive,
            LatchPhase::Energizing => LatchAction::Energize,
            LatchPhase::Sleeping => LatchAction::Sleep { millis: self.pause },
            LatchPhase::Polling => LatchAction::Poll,
            LatchPhase::DeEnergizing => LatchAction::DeEnergize,
        }
    }

    /// Takes the answer to the current action and moves on.
    pub fn step(self, event: LatchEvent) -> (next: LatchWorker)
        ensures
            next == self.spec_step(event),
            next.spec_action() == LatchAction::Energize <==> self.phase == LatchPhase::Waiting
                && fresh(event),
    {
        match self.phase {
            LatchPhase::Waiting => match event {
                LatchEvent::Request { deadline, now } => {
                    if now <= deadline {
                        LatchWorker {
                            phase: LatchPhase::Energizing,
                            pause: deadline - now,
                            until: deadline,
                        }
                    } else {
                        self
                    }
                },
                _ => self,
            },
            LatchPhase::Energizing => LatchWorker {
                phase: LatchPhase::Sleeping,
                pause: self.pause,
                until: self.until,
            },
            LatchPhase::Sleeping => LatchWorker {
                phase: LatchPhase::Polling,
                pause: 0,
                until: self.until,
            },
            LatchPhase::Polling => match event {
                LatchEvent::Request { deadline, now } => {
                    if now <= deadline {
                        LatchWorker {
                            phase: LatchPhase::Sleeping,
                            pause: deadline - now,
                            until: deadline,
                        }
                    } else {
                        self
                    }
                },
                LatchEvent::Empty => LatchWorker {
                    phase: LatchPhase::DeEnergizing,
                    pause: self.pause,
                    until: self.until,
                },
                LatchEvent::Done => self,
            },
            LatchPhase::DeEnergizing => LatchWorker {
                phase: LatchPhase::Waiting,
                pause: 0,
                until: 0,
            },
        }
    }
}

/// The time of the last tick; 0 before the first.
pub open spec fn clock(ticks: Seq<Tick>) -> u64 {
    if ticks.len() == 0 {
        0
    } else {
        ticks.last().at
    }
}

/// Whether `tick` can follow time `since` in state `worker`: the clock has
/// not run backwards, a sleep has lasted as long as was asked, and a request
/// carries the time at which it was taken.
pub open spec fn punctual(worker: LatchWorker, since: u64, tick: Tick) -> bool {
    &&& since <= tick.at
    &&& worker.phase == LatchPhase::Sleeping ==> since + worker.pause <= tick.at
    &&& tick.event matches LatchEvent::Request { now, .. } ==> now == tick.at
}

/// The line is energized for a request that is fresh and reaches a waiting
/// worker, and for nothing else: a deadline that has passed never causes an
/// energize, in whatever state it arrives.
pub proof fn lemma_energize_only_for_fresh_request(worker: LatchWorker, event: LatchEvent)
    ensures
        worker.spec_step(event).spec_action() == LatchAction::Energize <==> worker.phase
            == LatchPhase::Waiting && fresh(event),
        !fresh(event) && (worker.phase == LatchPhase::Waiting || worker.phase
            == LatchPhase::Polling) && !(event is Empty) ==> worker.spec_step(event) == worker,
{
}

/// A worker that is sent nothing but requests whose deadlines have passed
/// stays as it was made, and asks for nothing but the next request.
pub proof fn lemma_stale_requests_change_nothing(ticks: Seq<Tick>)
    requires
        forall|i: int|
            0 <= i < ticks.len() ==> (#[trigger] ticks[i]).event is Request && !fresh(
                ticks[i].event,
            ),
    ensures
        LatchWorker::spec_new().after(ticks) == LatchWorker::spec_new(),
        LatchWorker::spec_new().after(ticks).spec_action() == LatchAction::Receive,
    decreases ticks.len(),
{
    if ticks.len() > 0 {
        let before = ticks.drop_last();
        assert forall|i: int| 0 <= i < before.len() implies (#[trigger] before[i]).event is Request
            && !fresh(before[i].event) by {
            assert(before[i] == ticks[i]);
        }
        lemma_stale_requests_change_nothing(before);
        assert(ticks.last() == ticks[ticks.len() - 1]);
    }
}

/// A run read up to its `k`-th tick, and one tick further.
pub proof fn lemma_prefix(worker: LatchWorker, ticks: Seq<Tick>, k: int)
    requires
        0 <= k < ticks.len(),
    ensures
        worker.after(ticks.take(k + 1)) == worker.after(ticks.take(k)).spec_step(ticks[k].event),
        clock(ticks.take(k + 1)) == ticks[k].at,
        worker.honest(ticks) ==> worker.honest(ticks.take(k + 1)) && worker.honest(ticks.take(k))
            && punctual(worker.after(ticks.take(k)), clock(ticks.take(k)), ticks[k]),
    decreases ticks.len(),
{
    assert(ticks.take(k + 1).drop_last() =~= ticks.take(k));
    assert(ticks.take(k + 1).last() == ticks[k]);
    if k + 1 < ticks.len() {
        lemma_prefix(worker, ticks.drop_last(), k);
        assert(ticks.drop_last().take(k + 1) =~= ticks.take(k + 1));
        assert(ticks.drop_last().take(k) =~= ticks.take(k));
    } else {
        assert(ticks.take(k + 1) =~= ticks);
        assert(ticks.drop_last() =~= ticks.take(k));
    }
}

/// In an honest run the worker is on time after every tick.
pub proof fn lemma_on_time(ticks: Seq<Tick>)
    requires
        LatchWorker::spec_new().honest(ticks),
    ensures
        LatchWorker::spec_new().after(ticks).on_time(clock(ticks)),
    decreases ticks.len(),
{
    if ticks.len() > 0 {
        lemma_on_time(ticks.drop_last());
    }
}

/// While the line is energized the deadline honoured last never moves back:
/// from tick `i` to tick `j` of an honest run, with no de-energize between
/// them, `until` does not decrease.
pub proof fn lemma_never_shortened(ticks: Seq<Tick>, i: int, j: int)
    requires
        LatchWorker::spec_new().honest(ticks),
        0 <= i <= j <= ticks.len(),
        forall|k: int|
            i <= k < j ==> (#[trigger] LatchWorker::spec_new().after(ticks.take(k))).phase
                != LatchPhase::DeEnergizing,
    ensures
        LatchWorker::spec_new().after(ticks.take(i)).until <= LatchWorker::spec_new().after(
            ticks.take(j),
        ).until,
    decreases j - i,
{
    if i < j {
        let start = LatchWorker::spec_new();
        lemma_never_shortened(ticks, i, j - 1);
        lemma_prefix(start, ticks, j - 1);
        lemma_on_time(ticks.take(j - 1));
        let before = start.after(ticks.take(j - 1));
        assert(before.phase != LatchPhase::DeEnergizing);
        lemma_waiting_is_reset(ticks.take(j - 1));
    }
}

/// A waiting worker has honoured nothing yet.
pub proof fn lemma_waiting_is_reset(ticks: Seq<Tick>)
    ensures
        LatchWorker::spec_new().after(ticks).phase == LatchPhase::Waiting
            ==> LatchWorker::spec_new().after(ticks) == LatchWorker::spec_new(),
    decreases ticks.len(),
{
    if ticks.len() > 0 {
        lemma_waiting_is_reset(ticks.drop_last());
    }
}

/// The line is de-energized no earlier than any deadline honoured while it
/// was energized: if the worker asks for the de-energize after tick `j` of
/// an honest run and did not ask for one from tick `i` on, the clock at tick
/// `j` has reached the deadline that was honoured last at tick `i`.
pub proof fn lemma_de_energize_after_deadlines(ticks: Seq<Tick>, i: int, j: int)
    requires
        LatchWorker::spec_new().honest(ticks),
        0 <= i <= j <= ticks.len(),
        forall|k: int|
            i <= k < j ==> (#[trigger] LatchWorker::spec_new().after(ticks.take(k))).phase
                != LatchPhase::DeEnergizing,
        LatchWorker::spec_new().after(ticks.take(j)).spec_action() == LatchAction::DeEnergize,
    ensures
        clock(ticks.take(j)) >= LatchWorker::spec_new().after(ticks.take(i)).until,
{
    let start = LatchWorker::spec_new();
    lemma_never_shortened(ticks, i, j);
    if j < ticks.len() {
        lemma_prefix(start, ticks, j);
    } else {
        assert(ticks.take(j) =~= ticks);
    }
    lemma_on_time(ticks.take(j));
}

/// Two overlapping requests make one opening. A first request, for `t1`,
/// is honoured; a second, for a later `t2`, is found when the first sleep
/// is over and `t2` has not passed. Then the line is energized once, after
/// the first tick; the worker sleeps until `t1`, polls, sleeps until `t2`,
/// polls again, and only then de-energizes the line, at `t2` or later.
pub proof fn lemma_overlapping_requests_coalesce(ticks: Seq<Tick>, t1: u64, t2: u64)
    requires
        ticks.len() == 6,
        t1 < t2,
        ticks[0].event == (LatchEvent::Request { deadline: t1, now: ticks[0].at }),
        ticks[0].at <= t1,
        ticks[3].event == (LatchEvent::Request { deadline: t2, now: ticks[3].at }),
        ticks[3].at <= t2,
        ticks[5].event == LatchEvent::Empty,
        LatchWorker::spec_new().honest(ticks),
    ensures
        ({
            let start = LatchWorker::spec_new();
            &&& start.spec_action() == LatchAction::Receive
            &&& start.after(ticks.take(1)).spec_action() == LatchAction::Energize
            &&& start.after(ticks.take(2)).spec_action() == LatchAction::Sleep {
                millis: (t1 - ticks[0].at) as u64,
            }
            &&& start.after(ticks.take(3)).spec_action() == LatchAction::Poll
            &&& start.after(ticks.take(4)).spec_action() == LatchAction::Sleep {
                millis: (t2 - ticks[3].at) as u64,
            }
            &&& start.after(ticks.take(5)).spec_action() == LatchAction::Poll
            &&& start.after(ticks).spec_action() == LatchAction::DeEnergize
            &&& ticks[2].at >= t1
            &&& ticks[5].at >= t2
        }),
{
    let start = LatchWorker::spec_new();
    assert(ticks.take(0) =~= Seq::<Tick>::empty());
    assert(ticks.take(6) =~= ticks);
    lemma_prefix(start, ticks, 0);
    lemma_prefix(start, ticks, 1);
    lemma_prefix(start, ticks, 2);
    lemma_prefix(start, ticks, 3);
    lemma_prefix(start, ticks, 4);
    lemma_prefix(start, ticks, 5);
}

/// A second request that is found too late changes nothing. A first
/// request, for `t1`, is honoured; a second, for `t2`, is found when the
/// first sleep is over and `t2` has passed. Then the line is energized
/// once, the second request is forgotten, and the line is de-energized
/// after `t2`.
pub proof fn lemma_late_request_is_absorbed(ticks: Seq<Tick>, t1: u64, t2: u64)
    requires
        ticks.len() == 5,
        ticks[0].event == (LatchEvent::Request { deadline: t1, now: ticks[0].at }),
        ticks[0].at <= t1,
        ticks[3].event == (LatchEvent::Request { deadline: t2, now: ticks[3].at }),
        ticks[3].at > t2,
        ticks[4].event == LatchEvent::Empty,
        LatchWorker::spec_new().honest(ticks),
    ensures
        ({
            let start = LatchWorker::spec_new();
            &&& start.spec_action() == LatchAction::Receive
            &&& start.after(ticks.take(1)).spec_action() == LatchAction::Energize
            &&& start.after(ticks.take(2)).spec_action() == LatchAction::Sleep {
                millis: (t1 - ticks[0].at) as u64,
            }
            &&& start.after(ticks.take(3)).spec_action() == LatchAction::Poll
            &&& start.after(ticks.take(4)).spec_action() == LatchAction::Poll
            &&& start.after(ticks).spec_action() == LatchAction::DeEnergize
            &&& ticks[4].at >= t1
            &&& ticks[4].at > t2
        }),
{
    let start = LatchWorker::spec_new();
    assert(ticks.take(0) =~= Seq::<Tick>::empty());
    assert(ticks.take(5) =~= ticks);
    lemma_prefix(start, ticks, 0);
    lemma_prefix(start, ticks, 1);
    lemma_prefix(start, ticks, 2);
    lemma_prefix(start, ticks, 3);
    lemma_prefix(start, ticks, 4);
}

/// An opening ends: once no request is left to take, an energized line is
/// de-energized after the sleep under way, and the worker then waits for
/// the next request as it did at first. Every sleep is as long as the way
/// from the clock to a deadline, so none is without end.
pub proof fn lemma_opening_ends(worker: LatchWorker, first: LatchEvent, second: LatchEvent)
    ensures
        worker.phase == LatchPhase::Energizing ==> worker.spec_step(first).spec_step(
            second,
        ).spec_step(LatchEvent::Empty).spec_action() == LatchAction::DeEnergize,
        worker.phase == LatchPhase::Sleeping ==> worker.spec_step(first).spec_step(
            LatchEvent::Empty,
        ).spec_action() == LatchAction::DeEnergize,
        worker.phase == LatchPhase::Polling ==> worker.spec_step(LatchEvent::Empty).spec_action()
            == LatchAction::DeEnergize,
        worker.phase == LatchPhase::DeEnergizing ==> worker.spec_step(first)
            == LatchWorker::spec_new(),
{
}

} // verus!
