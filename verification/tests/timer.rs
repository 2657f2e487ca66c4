use crust_8::timer::{InstructionTimer, Timer, WallTimer};

#[test]
fn instruction_timer() {
    let mut timer = InstructionTimer::new();

    for _ in 0..5 {
        // Run a cycle of 7 non-ticks followed 1 tick
        for _ in 0..7 {
            assert!(!timer.should_tick());
        }
        assert!(timer.should_tick());
    }
    assert!(!timer.should_tick());
}

#[test]
fn wall_timer() {
    let mut timer = WallTimer::new();
    let now = timer.last_check;

    // Have to test with injected instants so the test isn't dependent on system speed

    // An immediate tick should not roll over
    assert_eq!(false, timer.should_tick_internal(now));

    // 10,000 later should still not roll over
    let now = now + 10000;
    assert_eq!(false, timer.should_tick_internal(now));

    // Another 6,666 later is just a single micro from rolling over
    let now = now + 6666;
    assert_eq!(false, timer.should_tick_internal(now));

    // Another 6,668 should roll the timer over and leave a residual 6,667
    let now = now + 6668;
    assert!(timer.should_tick_internal(now));

    // Another 10,000 should perfectly roll the timer over to 0
    let now = now + 10000;
    assert!(timer.should_tick_internal(now));

    // A tick that is larger than the time should cause one tick
    let now = now + (16667 * 10 + 5555);
    assert!(timer.should_tick_internal(now));
    let now = now + 10000;
    assert_eq!(false, timer.should_tick_internal(now));

    // Should still be able to roll over normally
    let now = now + 1112;
    assert!(timer.should_tick_internal(now));
}

#[test]
fn wall_timer_poisoned() {
    let mut timer = WallTimer::new();
    let now = timer.last_check;

    // Suppose the internal timer ends up a full week in the future
    let the_future = now + 60 * 60 * 24 * 7 * 1_000_000;
    timer.last_check = the_future;

    // The timer should not tick
    assert_eq!(false, timer.should_tick_internal(now));

    // Given another cycle, it should tick normally
    assert!(timer.should_tick_internal(now + 16667));
}

#[test]
fn the_instruction_timer_ticks_on_every_eighth_query_only() {
    let mut timer = InstructionTimer::new();

    for query in 1..=1000 {
        assert_eq!(query % 8 == 0, timer.should_tick());
    }
}

#[test]
fn the_wall_timer_keeps_what_is_left_over() {
    let mut timer = WallTimer::new();

    assert!(timer.should_tick_internal(23334));
    assert_eq!(6667, timer.ticked);
    assert_eq!(23334, timer.last_check);

    assert!(timer.should_tick_internal(33334));
    assert_eq!(0, timer.ticked);

    assert!(timer.should_tick_internal(33334 + 16667 * 10 + 5555));
    assert_eq!(5555, timer.ticked);

    assert_eq!(false, timer.should_tick_internal(33334 + 16667 * 10 + 5555 + 11111));
    assert_eq!(16666, timer.ticked);

    assert!(timer.should_tick_internal(33334 + 16667 * 10 + 5555 + 11112));
    assert_eq!(0, timer.ticked);
}

#[test]
fn a_clock_that_ran_backwards_adds_nothing() {
    let mut timer = WallTimer::new();

    assert_eq!(false, timer.should_tick_internal(16000));
    assert_eq!(16000, timer.ticked);

    assert_eq!(false, timer.should_tick_internal(15999));
    assert_eq!(16000, timer.ticked);
    assert_eq!(15999, timer.last_check);

    assert!(timer.should_tick_internal(15999 + 667));
    assert_eq!(0, timer.ticked);
}

#[test]
fn the_wall_timer_survives_the_largest_times() {
    let mut timer = WallTimer::new();
    timer.ticked = u128::MAX;

    assert!(timer.should_tick_internal(u128::MAX));
    // (2^128 - 1) + (2^128 - 1) leaves 10296 over when divided by 16667.
    assert_eq!(10296, timer.ticked);
    assert_eq!(u128::MAX, timer.last_check);
}

#[test]
fn the_wall_timer_reads_a_clock_that_moves_forward() {
    let mut timer = WallTimer::new();

    let mut ticks = 0;
    let mut last_check = timer.last_check;
    while ticks < 2 {
        if timer.should_tick() {
            ticks += 1;
        }
        assert!(timer.last_check >= last_check);
        assert!(timer.ticked < 16667);
        last_check = timer.last_check;
    }
    // Two ticks take a thirtieth of a second.
    assert!(last_check >= 2 * 16667);
}
