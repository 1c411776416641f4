use discord::timer::Timer;

const MS: u128 = 1_000_000;

#[test]
fn check_tick_goes_off_at_the_deadline_and_keeps_the_schedule() {
    let mut t = Timer::new(100);
    assert!(!t.check_tick_at(50 * MS));
    assert!(t.check_tick_at(100 * MS));
    assert!(!t.check_tick_at(150 * MS));
    assert!(t.check_tick_at(450 * MS));
    assert!(t.check_tick_at(450 * MS));
    assert!(t.check_tick_at(450 * MS));
    assert!(!t.check_tick_at(450 * MS));
    assert!(!t.check_tick_at(499 * MS));
    assert!(t.check_tick_at(500 * MS));
}

#[test]
fn defer_and_immediately_move_the_deadline() {
    let mut t = Timer::new(100);
    t.defer_at(500 * MS);
    assert!(!t.check_tick_at(599 * MS));
    assert!(t.check_tick_at(600 * MS));
    t.immediately_at(610 * MS);
    assert!(t.check_tick_at(610 * MS));
    assert!(!t.check_tick_at(709 * MS));
    assert!(t.check_tick_at(710 * MS));
}

#[test]
fn sleep_until_tick_waits_for_the_rest_of_the_tick() {
    let mut t = Timer::new(100);
    assert_eq!(t.sleep_until_tick_at(30 * MS), 70 * MS);
    assert_eq!(t.sleep_until_tick_at(250 * MS), 0);
    assert_eq!(t.sleep_until_tick_at(260 * MS), 40 * MS);
    assert!(!t.check_tick_at(399 * MS));
    assert!(t.check_tick_at(400 * MS));
}

#[test]
fn deadline_saturates_instead_of_overflowing() {
    let mut t = Timer::new(u64::MAX);
    t.immediately_at(u128::MAX - 1);
    assert!(t.check_tick_at(u128::MAX));
    assert!(t.check_tick_at(u128::MAX));
}

#[test]
fn clock_reading_ticks_soon_after_creation() {
    let mut t = Timer::new(0);
    assert!(t.check_tick());
    t.defer();
    t.immediately();
    assert!(t.check_tick());
    assert_eq!(t.sleep_until_tick(), 0);
}

#[test]
fn missed_ticks_are_caught_up_one_per_call() {
    let mut t = Timer::new(10);
    let mut fired = 0;
    for _ in 0..10 {
        if t.check_tick_at(35 * MS) {
            fired += 1;
        }
    }
    assert_eq!(fired, 3);
    assert!(!t.check_tick_at(39 * MS));
    assert!(t.check_tick_at(40 * MS));
}
