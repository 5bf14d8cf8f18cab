use bubbler::scheduler::{
    RealtimeGuard, SchedClass, SchedPolicy, DEFAULT_PRIORITY, REALTIME_PRIORITY, SCHED_FAILURE,
};

#[test]
fn realtime_class_is_fifo_at_priority_ten() {
    assert_eq!(SchedClass::realtime(), SchedClass { policy: SchedPolicy::Fifo, priority: 10 });
    assert_eq!(REALTIME_PRIORITY, 10);
}

#[test]
fn time_shared_class_is_other_at_priority_zero() {
    assert_eq!(SchedClass::time_shared(), SchedClass { policy: SchedPolicy::Other, priority: 0 });
    assert_eq!(DEFAULT_PRIORITY, 0);
}

#[test]
fn fresh_guard_holds_the_realtime_class() {
    let guard = RealtimeGuard::default();
    assert_eq!(guard.class, SchedClass::realtime());
}

#[test]
fn guard_selects_the_class_to_ask_for() {
    let mut guard = RealtimeGuard::default();
    assert_eq!(guard.set_priority(false), SchedClass::time_shared());
    assert_eq!(guard.class, SchedClass::time_shared());
    assert_eq!(guard.set_priority(true), SchedClass::realtime());
    assert_eq!(guard.class, SchedClass::realtime());
}

#[test]
fn guard_that_ends_goes_back_to_the_time_shared_class() {
    let mut guard = RealtimeGuard::default();
    let class = guard.set_priority(false);
    assert_eq!(class.policy, SchedPolicy::Other);
    assert_eq!(class.priority, 0);
    assert_eq!(guard, RealtimeGuard { class: SchedClass::time_shared() });
}

#[test]
fn only_minus_one_is_a_refusal() {
    assert!(RealtimeGuard::refused(-1));
    assert!(!RealtimeGuard::refused(0));
    assert!(!RealtimeGuard::refused(1));
    assert!(!RealtimeGuard::refused(i32::MIN));
    assert_eq!(SCHED_FAILURE, -1);
}
