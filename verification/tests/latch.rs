use bubbler::routes::config::{HardwareLine, Latch, LATCH_OPEN_MS};
use bubbler::routes::latch::{LatchAction, LatchEvent, LatchPhase, LatchWorker};

fn request(deadline: u64, now: u64) -> LatchEvent {
    LatchEvent::Request { deadline, now }
}

/// Plays the driver on a clock that jumps to the end of every sleep. The
/// requests are handed out in order, one for each `Receive` or `Poll`, as
/// (deadline, earliest time); a request is found only once the clock has
/// reached its time. Returns what was done and when.
fn play(queue: &[(u64, u64)], steps: usize) -> Vec<(LatchAction, u64)> {
    let mut worker = LatchWorker::new();
    let mut clock: u64 = 0;
    let mut next = 0;
    let mut log = Vec::new();
    for _ in 0..steps {
        let action = worker.action();
        log.push((action, clock));
        let event = match action {
            LatchAction::Receive => {
                if next == queue.len() {
                    break;
                }
                clock = clock.max(queue[next].1);
                next += 1;
                request(queue[next - 1].0, clock)
            }
            LatchAction::Poll => {
                if next < queue.len() && queue[next].1 <= clock {
                    next += 1;
                    request(queue[next - 1].0, clock)
                } else {
                    LatchEvent::Empty
                }
            }
            LatchAction::Sleep { millis } => {
                clock += millis;
                LatchEvent::Done
            }
            LatchAction::Energize | LatchAction::DeEnergize => LatchEvent::Done,
        };
        worker = worker.step(event);
    }
    log
}

fn times(log: &[(LatchAction, u64)], wanted: LatchAction) -> Vec<u64> {
    log.iter().filter(|(action, _)| *action == wanted).map(|(_, at)| *at).collect()
}

#[test]
fn new_worker_waits_for_a_request() {
    let worker = LatchWorker::new();
    assert_eq!(worker.phase, LatchPhase::Waiting);
    assert_eq!(worker.action(), LatchAction::Receive);
    assert_eq!(worker.step(LatchEvent::Done), worker);
    assert_eq!(worker.step(LatchEvent::Empty), worker);
}

#[test]
fn request_in_the_past_never_energizes() {
    let worker = LatchWorker::new();
    for (deadline, now) in [(0u64, 1u64), (5, 6), (1_000, u64::MAX), (u64::MAX - 1, u64::MAX)] {
        let next = worker.step(request(deadline, now));
        assert_eq!(next, worker);
        assert_eq!(next.action(), LatchAction::Receive);
    }
    let log = play(&[(5, 10), (7, 20), (29, 30)], 50);
    assert!(times(&log, LatchAction::Energize).is_empty());
    assert!(times(&log, LatchAction::DeEnergize).is_empty());
}

#[test]
fn request_due_right_now_is_honoured() {
    let next = LatchWorker::new().step(request(10, 10));
    assert_eq!(next.action(), LatchAction::Energize);
    assert_eq!(next.step(LatchEvent::Done).action(), LatchAction::Sleep { millis: 0 });
}

#[test]
fn one_request_opens_until_its_deadline() {
    let log = play(&[(100, 10)], 50);
    let actions: Vec<LatchAction> = log.iter().map(|(action, _)| *action).collect();
    assert_eq!(
        actions,
        vec![
            LatchAction::Receive,
            LatchAction::Energize,
            LatchAction::Sleep { millis: 90 },
            LatchAction::Poll,
            LatchAction::DeEnergize,
            LatchAction::Receive,
        ]
    );
    assert_eq!(times(&log, LatchAction::Energize), vec![10]);
    assert_eq!(times(&log, LatchAction::DeEnergize), vec![100]);
}

#[test]
fn overlapping_requests_make_one_opening() {
    // T1 = 100 is asked for at 10, T2 = 160 at 50, while the worker sleeps
    let log = play(&[(100, 10), (160, 50)], 50);
    let actions: Vec<LatchAction> = log.iter().map(|(action, _)| *action).collect();
    assert_eq!(
        actions,
        vec![
            LatchAction::Receive,
            LatchAction::Energize,
            LatchAction::Sleep { millis: 90 },
            LatchAction::Poll,
            LatchAction::Sleep { millis: 60 },
            LatchAction::Poll,
            LatchAction::DeEnergize,
            LatchAction::Receive,
        ]
    );
    assert_eq!(times(&log, LatchAction::Energize).len(), 1);
    assert_eq!(times(&log, LatchAction::DeEnergize), vec![160]);
}

#[test]
fn second_request_found_too_late_is_forgotten() {
    // T2 = 60 lies before the end of the first sleep
    let log = play(&[(100, 10), (60, 50)], 50);
    let actions: Vec<LatchAction> = log.iter().map(|(action, _)| *action).collect();
    assert_eq!(
        actions,
        vec![
            LatchAction::Receive,
            LatchAction::Energize,
            LatchAction::Sleep { millis: 90 },
            LatchAction::Poll,
            LatchAction::Poll,
            LatchAction::DeEnergize,
            LatchAction::Receive,
        ]
    );
    assert_eq!(times(&log, LatchAction::DeEnergize), vec![100]);
}

#[test]
fn many_requests_never_shorten_the_opening() {
    let queue = [(100u64, 10u64), (130, 20), (90, 30), (400, 40), (399, 41), (401, 380)];
    let log = play(&queue, 200);
    assert_eq!(times(&log, LatchAction::Energize), vec![10]);
    assert_eq!(times(&log, LatchAction::DeEnergize), vec![401]);
    let mut last = 0;
    for (_, at) in &log {
        assert!(*at >= last);
        last = *at;
    }
}

#[test]
fn separate_requests_make_separate_openings() {
    let log = play(&[(100, 10), (300, 200)], 50);
    assert_eq!(times(&log, LatchAction::Energize), vec![10, 200]);
    assert_eq!(times(&log, LatchAction::DeEnergize), vec![100, 300]);
}

#[test]
fn worker_remembers_the_deadline_it_honoured() {
    let worker = LatchWorker::new().step(request(100, 10));
    assert_eq!(worker, LatchWorker { phase: LatchPhase::Energizing, pause: 90, until: 100 });
    let worker = worker.step(LatchEvent::Done);
    assert_eq!(worker, LatchWorker { phase: LatchPhase::Sleeping, pause: 90, until: 100 });
    let worker = worker.step(LatchEvent::Done);
    assert_eq!(worker, LatchWorker { phase: LatchPhase::Polling, pause: 0, until: 100 });
    assert_eq!(worker.step(LatchEvent::Done), worker);
    assert_eq!(worker.step(request(99, 100)), worker);
    let longer = worker.step(request(150, 100));
    assert_eq!(longer, LatchWorker { phase: LatchPhase::Sleeping, pause: 50, until: 150 });
    let closing = worker.step(LatchEvent::Empty);
    assert_eq!(closing.action(), LatchAction::DeEnergize);
    assert_eq!(closing.step(LatchEvent::Done), LatchWorker::new());
}

#[test]
fn latch_is_asked_to_stay_open_for_a_minute() {
    let latch = Latch::new(HardwareLine { offset: 12, chip: 0 });
    assert_eq!(latch.line, HardwareLine { offset: 12, chip: 0 });
    assert_eq!(LATCH_OPEN_MS, 60_000);
    assert_eq!(latch.open(0), 60_000);
    assert_eq!(latch.open(1_500), 61_500);
    assert_eq!(latch.open(u64::MAX - 60_000), u64::MAX);
}
