use yeeboy::timer::Timer;

#[test]
fn divider_counts_every_256_cycles() {
    let mut timer = Timer::new();
    assert!(!timer.tick(255));
    assert_eq!(timer.div, 0);
    assert!(!timer.tick(1));
    assert_eq!(timer.div, 1);
    assert!(!timer.tick(256 * 3 + 10));
    assert_eq!(timer.div, 4);
    assert!(!timer.tick(246));
    assert_eq!(timer.div, 5);
    assert_eq!(timer.tima, 0);
}

#[test]
fn divider_wraps() {
    let mut timer = Timer::new();
    timer.div = 0xFF;
    timer.tick(256);
    assert_eq!(timer.div, 0);
}

#[test]
fn disabled_counter_stands_still() {
    let mut timer = Timer::new();
    timer.tac = 0x01;
    timer.tima = 0xFF;
    assert!(!timer.tick(100_000));
    assert_eq!(timer.tima, 0xFF);
}

#[test]
fn each_period() {
    for (tac, period) in [(0x04u8, 1024u64), (0x05, 16), (0x06, 64), (0x07, 256)] {
        let mut timer = Timer::new();
        timer.tac = tac;
        assert_eq!(timer.clock_select(), period);
        assert!(!timer.tick(period - 1));
        assert_eq!(timer.tima, 0);
        assert!(!timer.tick(1));
        assert_eq!(timer.tima, 1);
        assert!(!timer.tick(period * 3));
        assert_eq!(timer.tima, 4);
    }
    let mut timer = Timer::new();
    timer.tac = 0x03;
    assert_eq!(timer.clock_select(), 0);
}

#[test]
fn overflow_reloads_and_reports() {
    let mut timer = Timer::new();
    timer.tac = 0x05;
    timer.tma = 0x10;
    timer.tima = 0xFF;
    assert!(timer.tick(16));
    assert_eq!(timer.tima, 0x10);
    assert!(!timer.tick(16));
    assert_eq!(timer.tima, 0x11);
}

#[test]
fn several_overflows_in_one_advance() {
    let mut timer = Timer::new();
    timer.tac = 0x05;
    timer.tma = 0xFE;
    timer.tima = 0xFF;
    // five increments: FF -> FE, FF, FE, FF, FE
    assert!(timer.tick(16 * 5));
    assert_eq!(timer.tima, 0xFE);
}

#[test]
fn huge_advance_does_not_overflow_the_accumulators() {
    let mut timer = Timer::new();
    timer.tick(255);
    timer.tick(u64::MAX);
    assert_eq!(timer.div as u128, ((255u128 + u64::MAX as u128) / 256) % 256);
}
