use test_game::duration::Duration;
use test_game::mechanics::cooldown::{handle_lifetime, Cooldown, LifeTime};

#[test]
fn duration_arithmetic() {
    let d = Duration::new(1, 1_500_000_000);
    assert_eq!(d.as_secs(), 2);
    assert_eq!(d.subsec_nanos(), 500_000_000);
    assert_eq!(d.as_nanos(), 2_500_000_000);
    assert!(Duration::zero().is_zero());
    assert_eq!(Duration::from_millis(1500).as_nanos(), 1_500_000_000);
    assert!(Duration::from_secs(1).checked_sub(Duration::from_secs(2)).is_none());
    assert_eq!(
        Duration::from_secs(3).checked_sub(Duration::from_secs(2)).map(|d| d.as_secs()),
        Some(1)
    );
    let max = Duration::new(u64::MAX, 999_999_999);
    assert!(max.checked_add(Duration::from_nanos(1)).is_none());
    assert_eq!(Duration::from_nanos(7).add(Duration::from_nanos(5)).as_nanos(), 12);
    assert_eq!(Duration::from_nanos(7).sub(Duration::from_nanos(5)).as_nanos(), 2);
}

#[test]
fn reset_counts_elapsed_periods() {
    let mut cd = Cooldown::default();
    cd.tick(Duration::from_millis(2500));
    assert!(cd.is_ready(Duration::from_secs(1)));
    assert_eq!(cd.reset(Duration::from_secs(1)), 2);
    assert!(!cd.is_ready(Duration::from_secs(1)));
    assert!(cd.is_ready(Duration::from_millis(500)));
    assert!(!cd.is_ready(Duration::from_millis(501)));
}

#[test]
fn reset_before_a_period_counts_nothing() {
    let mut cd = Cooldown::default();
    cd.tick(Duration::from_millis(999));
    assert_eq!(cd.reset(Duration::from_secs(1)), 0);
    assert!(cd.is_ready(Duration::from_millis(999)));
}

#[test]
fn waiting_cooldown_reports_one_period() {
    let mut cd = Cooldown::waiting();
    cd.tick(Duration::from_secs(3));
    assert_eq!(cd.reset(Duration::from_secs(1)), 1);
    assert!(!cd.is_ready(Duration::from_nanos(1)));
    cd.tick(Duration::from_secs(3));
    assert_eq!(cd.reset(Duration::from_secs(1)), 3);
}

#[test]
fn reset_and_wait_leaves_it_waiting() {
    let mut cd = Cooldown::default();
    cd.tick(Duration::from_secs(3));
    assert_eq!(cd.reset_and_wait(Duration::from_secs(1)), 3);
    cd.tick(Duration::from_millis(2500));
    assert_eq!(cd.reset_and_wait(Duration::from_secs(1)), 1);
    assert!(!cd.is_ready(Duration::from_nanos(1)));
    cd.tick(Duration::from_millis(2500));
    assert_eq!(cd.reset_and_wait(Duration::from_secs(1)), 1);
    assert!(!cd.is_ready(Duration::from_nanos(1)));
}

#[test]
fn reset_clears_waiting_even_before_a_period() {
    let mut cd = Cooldown::waiting();
    cd.tick(Duration::from_millis(500));
    assert_eq!(cd.reset(Duration::from_secs(1)), 0);
    cd.tick(Duration::from_millis(600));
    assert_eq!(cd.reset(Duration::from_secs(1)), 1);
    assert!(cd.is_ready(Duration::from_millis(100)));
    assert!(!cd.is_ready(Duration::from_millis(101)));
}

#[test]
fn reset_and_wait_matches_reset_while_waiting() {
    let mut a = Cooldown::waiting();
    let mut b = Cooldown::waiting();
    a.tick(Duration::from_millis(2500));
    b.tick(Duration::from_millis(2500));
    assert_eq!(a.reset_and_wait(Duration::from_secs(1)), 1);
    assert_eq!(b.reset(Duration::from_secs(1)), 1);
    assert!(!a.is_ready(Duration::from_nanos(1)));
    assert!(!b.is_ready(Duration::from_nanos(1)));
}

#[test]
fn wait_keeps_the_elapsed_time() {
    let mut cd = Cooldown::default();
    cd.tick(Duration::from_secs(5));
    cd.wait();
    assert!(cd.is_ready(Duration::from_secs(5)));
    assert_eq!(cd.reset(Duration::from_secs(2)), 1);
    assert!(!cd.is_ready(Duration::from_nanos(1)));
}

#[test]
fn lifetime_runs_out() {
    let mut lt = LifeTime(Duration::from_secs(1));
    assert!(lt.try_decrease(Duration::from_millis(600)));
    assert_eq!(lt.0.as_nanos(), 400_000_000);
    assert!(!lt.try_decrease(Duration::from_millis(600)));
    assert_eq!(lt.0.as_nanos(), 400_000_000);
    assert!(lt.try_decrease(Duration::from_millis(400)));
    assert!(lt.0.is_zero());
}

#[test]
fn handle_lifetime_marks_expired_entities() {
    let mut lts = vec![
        LifeTime(Duration::from_secs(2)),
        LifeTime(Duration::from_millis(100)),
        LifeTime(Duration::from_millis(500)),
    ];
    let expired = handle_lifetime(&mut lts, Duration::from_millis(500));
    assert_eq!(expired, vec![false, true, false]);
    assert_eq!(lts[0].0.as_nanos(), 1_500_000_000);
    assert_eq!(lts[1].0.as_nanos(), 100_000_000);
    assert!(lts[2].0.is_zero());
}
