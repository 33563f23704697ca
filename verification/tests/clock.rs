use mcs::domain::time_control::TimeControl;
use mcs::game::clock::{ClockEngine, SECONDS_PER_DAY};
use mcs::time::{Duration, Timestamp, MAX_INSTANT_NANOS};
use mcs::variant::color::Color;

fn base() -> Timestamp {
    Timestamp::unix_epoch()
}

fn plus(t: Timestamp, secs: u64) -> Timestamp {
    t.checked_add(Duration::from_secs(secs)).unwrap()
}

fn real_time(initial_secs: u64, increment_secs: u64) -> TimeControl {
    TimeControl::RealTime {
        initial: Duration::from_secs(initial_secs),
        increment: Duration::from_secs(increment_secs),
    }
}

#[test]
fn new_real_time_starts_both_sides_at_initial() {
    let engine = ClockEngine::new(&real_time(180, 2));
    assert!(engine.is_real_time());
    assert_eq!(
        engine.remaining(Color::White, base()),
        Duration::from_secs(180)
    );
    assert_eq!(
        engine.remaining(Color::Black, base()),
        Duration::from_secs(180)
    );
    assert_eq!(engine.flagged(base()), None);
}

#[test]
fn running_clock_counts_down_live() {
    let mut engine = ClockEngine::new(&real_time(60, 0));
    engine.start(Color::White, base());
    let now = plus(base(), 10);
    assert_eq!(engine.remaining(Color::White, now), Duration::from_secs(50));
    assert_eq!(engine.remaining(Color::Black, now), Duration::from_secs(60));
}

#[test]
fn on_move_deducts_elapsed_and_adds_increment() {
    let mut engine = ClockEngine::new(&real_time(60, 5));
    engine.start(Color::White, base());

    let t1 = plus(base(), 10);
    engine.on_move(Color::White, t1);
    assert_eq!(engine.remaining(Color::White, t1), Duration::from_secs(55));
    assert_eq!(engine.remaining(Color::Black, t1), Duration::from_secs(60));

    let t2 = plus(t1, 4);
    engine.on_move(Color::Black, t2);
    assert_eq!(engine.remaining(Color::Black, t2), Duration::from_secs(61));
    assert_eq!(engine.remaining(Color::White, t2), Duration::from_secs(55));
}

#[test]
fn alternating_moves_accumulate_correctly() {
    let mut engine = ClockEngine::new(&real_time(100, 1));
    engine.start(Color::White, base());

    let mut t = base();
    t = plus(t, 5);
    engine.on_move(Color::White, t);
    t = plus(t, 7);
    engine.on_move(Color::Black, t);
    t = plus(t, 3);
    engine.on_move(Color::White, t);

    assert_eq!(engine.remaining(Color::White, t), Duration::from_secs(94));
    assert_eq!(engine.remaining(Color::Black, t), Duration::from_secs(94));
}

#[test]
fn flag_detected_at_zero_for_running_side() {
    let mut engine = ClockEngine::new(&real_time(30, 0));
    engine.start(Color::White, base());

    let at_limit = plus(base(), 30);
    assert_eq!(engine.flagged(at_limit), Some(Color::White));
    let before = plus(base(), 29);
    assert_eq!(engine.flagged(before), None);
    assert_eq!(
        engine.remaining(Color::White, before),
        Duration::from_secs(1)
    );
    let after = plus(base(), 45);
    assert_eq!(engine.flagged(after), Some(Color::White));
    assert_eq!(engine.remaining(Color::White, after), Duration::zero());
}

#[test]
fn flagging_on_move_does_not_credit_increment() {
    let mut engine = ClockEngine::new(&real_time(30, 5));
    engine.start(Color::White, base());

    let t = plus(base(), 40);
    engine.on_move(Color::White, t);
    assert_eq!(engine.remaining(Color::White, t), Duration::zero());
}

#[test]
fn flag_deadline_tracks_running_side() {
    let mut engine = ClockEngine::new(&real_time(60, 0));
    assert_eq!(engine.flag_deadline(), None);

    engine.start(Color::White, base());
    assert_eq!(engine.flag_deadline(), Some(plus(base(), 60)));

    let t1 = plus(base(), 10);
    engine.on_move(Color::White, t1);
    assert_eq!(engine.flag_deadline(), Some(plus(t1, 60)));
}

#[test]
fn the_flag_falls_exactly_at_the_deadline() {
    let mut engine = ClockEngine::new(&real_time(60, 0));
    engine.start(Color::Black, base());
    let deadline = engine.flag_deadline().unwrap();
    assert_eq!(engine.flagged(deadline), Some(Color::Black));
    let just_before = Timestamp::from_unix_nanos(deadline.unix_nanos() - 1).unwrap();
    assert_eq!(engine.flagged(just_before), None);
}

#[test]
fn idle_side_never_flags() {
    let mut engine = ClockEngine::new(&real_time(1, 0));
    engine.start(Color::White, base());
    let now = plus(base(), 1000);
    assert_eq!(engine.flagged(now), Some(Color::White));
}

#[test]
fn a_stopped_clock_never_flags() {
    let mut engine = ClockEngine::new(&real_time(1, 0));
    engine.start(Color::White, base());
    engine.stop();
    let late = Timestamp::from_unix_nanos(MAX_INSTANT_NANOS).unwrap();
    assert_eq!(engine.flagged(late), None);
    assert_eq!(engine.flag_deadline(), None);
}

#[test]
fn unlimited_never_flags_and_reports_zero() {
    let mut engine = ClockEngine::new(&TimeControl::Unlimited);
    assert!(!engine.is_real_time());
    engine.start(Color::White, base());
    let now = plus(base(), 1_000_000);
    engine.on_move(Color::White, now);
    assert_eq!(engine.flagged(now), None);
    assert_eq!(engine.flag_deadline(), None);
    assert_eq!(engine.remaining(Color::White, now), Duration::zero());
    assert!(engine.is_unlimited());
}

#[test]
fn correspondence_uses_per_move_deadline() {
    let mut engine = ClockEngine::new(&TimeControl::Correspondence { days_per_move: 2 });
    assert!(!engine.is_real_time());
    engine.start(Color::White, base());

    let one_day = plus(base(), SECONDS_PER_DAY);
    assert_eq!(
        engine.remaining(Color::White, one_day),
        Duration::from_secs(SECONDS_PER_DAY)
    );
    assert_eq!(engine.flagged(one_day), None);

    let deadline = plus(base(), 2 * SECONDS_PER_DAY);
    assert_eq!(engine.flagged(deadline), Some(Color::White));
    assert_eq!(engine.flag_deadline(), Some(deadline));

    let moved = plus(base(), SECONDS_PER_DAY);
    engine.on_move(Color::White, moved);
    assert_eq!(
        engine.remaining(Color::Black, moved),
        Duration::from_secs(2 * SECONDS_PER_DAY)
    );
}

#[test]
fn snapshot_captures_live_state() {
    let mut engine = ClockEngine::new(&real_time(60, 0));
    engine.start(Color::White, base());
    let now = plus(base(), 10);
    let snap = engine.snapshot(now);
    assert_eq!(snap.white_remaining(), Duration::from_secs(50));
    assert_eq!(snap.black_remaining(), Duration::from_secs(60));
    assert_eq!(snap.turn_started_at(), Some(base()));
}

#[test]
fn backwards_clock_does_not_add_time() {
    let mut engine = ClockEngine::new(&real_time(60, 0));
    engine.start(Color::White, plus(base(), 100));
    let earlier = base();
    assert_eq!(
        engine.remaining(Color::White, earlier),
        Duration::from_secs(60)
    );
}

#[test]
fn a_resumed_clock_has_the_given_times_and_the_increment() {
    let mut engine = ClockEngine::from_remaining(
        &real_time(60, 5),
        Duration::from_secs(7),
        Duration::from_secs(9),
    );
    assert_eq!(engine.remaining(Color::White, base()), Duration::from_secs(7));
    assert_eq!(engine.remaining(Color::Black, base()), Duration::from_secs(9));
    engine.start(Color::White, base());
    engine.on_move(Color::White, plus(base(), 1));
    assert_eq!(
        engine.remaining(Color::White, plus(base(), 1)),
        Duration::from_secs(11)
    );
    let mut correspondence = ClockEngine::from_remaining(
        &TimeControl::Correspondence { days_per_move: 1 },
        Duration::from_secs(7),
        Duration::from_secs(9),
    );
    assert_eq!(correspondence.remaining(Color::White, base()), Duration::zero());
    correspondence.start(Color::White, base());
    assert_eq!(
        correspondence.remaining(Color::White, base()),
        Duration::from_secs(SECONDS_PER_DAY)
    );
}
