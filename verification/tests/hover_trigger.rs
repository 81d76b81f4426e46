use myall::trigger::{HoverTrigger, Tick, HOVER_DELAY_NS};

const MS: u64 = 1_000_000;

fn tick(t: &mut HoverTrigger, alive: bool, in_zone: bool, now_ms: u64) -> bool {
    t.tick(Tick { trigger_alive: alive, cursor_in_zone: in_zone, now: now_ms * MS })
}

#[test]
fn delay_is_two_seconds() {
    assert_eq!(HOVER_DELAY_NS, 2_000_000_000);
}

#[test]
fn fires_after_two_seconds_of_hovering() {
    let mut t = HoverTrigger::new();
    assert!(!tick(&mut t, true, true, 0));
    let mut now = 100;
    while now < 2000 {
        assert!(!tick(&mut t, true, true, now));
        now += 100;
    }
    assert!(tick(&mut t, true, true, 2000));
}

#[test]
fn one_nanosecond_short_does_not_fire() {
    let mut t = HoverTrigger::new();
    assert!(!t.tick(Tick { trigger_alive: true, cursor_in_zone: true, now: 5 }));
    assert!(!t.tick(Tick { trigger_alive: true, cursor_in_zone: true, now: 5 + HOVER_DELAY_NS - 1 }));
    assert!(t.tick(Tick { trigger_alive: true, cursor_in_zone: true, now: 5 + HOVER_DELAY_NS }));
}

#[test]
fn leaving_the_zone_restarts_the_wait() {
    let mut t = HoverTrigger::new();
    assert!(!tick(&mut t, true, true, 0));
    assert!(!tick(&mut t, true, true, 1900));
    assert!(!tick(&mut t, true, false, 2000));
    assert!(!tick(&mut t, true, true, 2100));
    assert!(!tick(&mut t, true, true, 4000));
    assert!(tick(&mut t, true, true, 4100));
}

#[test]
fn firing_resets_the_trigger() {
    let mut t = HoverTrigger::new();
    assert!(!tick(&mut t, true, true, 0));
    assert!(tick(&mut t, true, true, 2500));
    assert!(!tick(&mut t, true, true, 2600));
    assert!(!tick(&mut t, true, true, 4500));
    assert!(tick(&mut t, true, true, 4600));
}

#[test]
fn polls_without_trigger_window_change_nothing() {
    let mut t = HoverTrigger::new();
    assert!(!tick(&mut t, true, true, 0));
    assert!(!tick(&mut t, false, false, 1000));
    assert!(!tick(&mut t, false, true, 3000));
    assert!(tick(&mut t, true, true, 3100));
}

#[test]
fn clock_before_start_counts_as_no_time() {
    let mut t = HoverTrigger::new();
    assert!(!tick(&mut t, true, true, 5000));
    assert!(!tick(&mut t, true, true, 1000));
    assert!(tick(&mut t, true, true, 7000));
}

#[test]
fn poll_period_is_one_hundred_ms() {
    assert_eq!(myall::trigger::POLL_PERIOD_MS, 100);
}
