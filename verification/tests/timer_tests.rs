use riverraid::timer::TimerKey;
use riverraid::world::World;

#[test]
fn one_shot_timer_is_consumed_by_first_elapsed_check() {
    let mut w = World::new(30, 10);
    let k = w.add_raw_timer(100, false, 0);
    // Not yet elapsed: strictly more than the duration must pass.
    assert_eq!(w.timer_elapsed(k, 50), Some(false));
    assert_eq!(w.timer_elapsed(k, 100), Some(false));
    // First check after elapse answers true and purges the key ...
    assert_eq!(w.timer_elapsed(k, 101), Some(true));
    // ... so every later check answers None.
    assert_eq!(w.timer_elapsed(k, 102), None);
    assert_eq!(w.timer_elapsed(k, 5000), None);
}

#[test]
fn repeating_timer_restarts_on_elapsed_check() {
    let mut w = World::new(30, 10);
    let k = w.add_raw_timer(100, true, 0);
    assert_eq!(w.timer_elapsed(k, 150), Some(true));
    // The check restarted the timer at 150: two checks within the duration
    // both answer false.
    assert_eq!(w.timer_elapsed(k, 200), Some(false));
    assert_eq!(w.timer_elapsed(k, 250), Some(false));
    // And it elapses again relative to the restart.
    assert_eq!(w.timer_elapsed(k, 251), Some(true));
    assert_eq!(w.timer_elapsed(k, 252), Some(false));
}

#[test]
fn unknown_timer_key_answers_none() {
    let mut w = World::new(30, 10);
    assert_eq!(w.timer_elapsed(TimerKey::new(42), 100), None);
    assert_eq!(w.reset_timer(TimerKey::new(42), 100), None);
}

#[test]
fn reset_timer_restarts_a_known_timer() {
    let mut w = World::new(30, 10);
    let k = w.add_raw_timer(100, false, 0);
    assert_eq!(w.reset_timer(k, 80), Some(true));
    // Restarted at 80, so at 150 only 70 have passed.
    assert_eq!(w.timer_elapsed(k, 150), Some(false));
    assert_eq!(w.timer_elapsed(k, 181), Some(true));
    assert_eq!(w.timer_elapsed(k, 181), None);
}

#[test]
fn timer_descriptor_accessors() {
    let t = riverraid::timer::Timer::new(TimerKey::new(3), 250, true, 7);
    assert_eq!(t.data.key().id, 3);
    assert_eq!(t.data.duration(), 250);
    assert!(t.data.is_repeat());
    assert!(!t.elapsed(257));
    assert!(t.elapsed(258));
    let mut t = t;
    t.reset(300);
    assert!(!t.elapsed(550));
    assert!(t.elapsed(551));
}

#[test]
fn signals_are_consumed_on_read() {
    let mut w = World::new(30, 10);
    let k = w.send_signal(None);
    // Sending the same signal twice keeps one pending flag.
    let k2 = w.send_signal(Some(k));
    assert_eq!(k, k2);
    assert!(w.signaled(k));
    // The read cleared it.
    assert!(!w.signaled(k));
}
