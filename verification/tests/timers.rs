use gardening_gun::shooting::{Bullet, CanShoot, Countdown, BULLET_TIMEOUT, COOLDOWN};

#[test]
fn a_countdown_runs_up_to_its_length_and_stays_there() {
    let mut countdown = Countdown::new(10);
    assert!(!countdown.finished());
    assert!(!countdown.tick(0));
    assert_eq!(countdown.elapsed, 0);
    assert!(!countdown.tick(9));
    assert_eq!(countdown.elapsed, 9);
    assert!(countdown.tick(1));
    assert_eq!(countdown.elapsed, 10);
    assert!(countdown.finished());
    assert!(countdown.tick(5));
    assert_eq!(countdown.elapsed, 10);
    countdown.reset();
    assert_eq!(countdown, Countdown { duration: 10, elapsed: 0 });
    assert!(!countdown.finished());
}

#[test]
fn a_countdown_takes_the_longest_times() {
    let mut countdown = Countdown { duration: u64::MAX, elapsed: u64::MAX - 1 };
    assert!(countdown.tick(u64::MAX));
    assert_eq!(countdown.elapsed, u64::MAX);
    let mut short = Countdown { duration: 5, elapsed: 3 };
    assert!(short.tick(u64::MAX));
    assert_eq!(short.elapsed, 5);
    let mut long = Countdown::new(u64::MAX);
    assert!(!long.tick(u64::MAX - 1));
    assert_eq!(long.elapsed, u64::MAX - 1);
}

#[test]
fn the_timers_of_the_game_have_their_lengths() {
    assert_eq!(COOLDOWN, 1_000_000);
    assert_eq!(BULLET_TIMEOUT, 20_000_000);
    let can_shoot = CanShoot::default();
    assert_eq!(can_shoot.cooldown, Countdown { duration: 1_000_000, elapsed: 1_000_000 });
    let bullet = Bullet { timeout: Countdown::new(BULLET_TIMEOUT) };
    assert!(!bullet.timeout.finished());
}
