// Timer behaviour: DIV, TIMA frequencies, overflow, falling edges.

use rust_gb_emu::bus::Bus;
use rust_gb_emu::timer::Timer;

#[test]
fn test_div_increment() {
    let mut timer = Timer::new();
    timer.internal_counter = 0;

    // DIV increments every 256 cycles.
    timer.tick(256);
    assert_eq!(timer.div(), 1);

    timer.tick(256);
    assert_eq!(timer.div(), 2);
}

#[test]
fn timer_test_div_reset() {
    let mut timer = Timer::new();
    timer.internal_counter = 0x1234;

    timer.reset_div();
    assert_eq!(timer.div(), 0);
    assert_eq!(timer.internal_counter, 0);
}

#[test]
fn test_tima_disabled() {
    let mut timer = Timer::new();
    timer.internal_counter = 0;
    timer.tac = 0x00; // Timer disabled.

    timer.tick(10000);
    assert_eq!(timer.tima, 0); // TIMA should not increment.
}

#[test]
fn test_tima_overflow() {
    let mut timer = Timer::new();
    timer.internal_counter = 0;
    timer.tima = 0xFF;
    timer.tma = 0x42;
    timer.tac = 0x05; // Enabled, clock select 01 (fastest).

    // Should overflow after 16 cycles.
    timer.tick(16);

    assert_eq!(timer.tima, 0x42); // Reset to TMA.
    assert!(timer.interrupt_requested);
}

#[test]
fn test_timer_frequency() {
    // Clock select 01: 262144 Hz, one increment every 16 cycles.
    let mut timer = Timer::new();
    timer.internal_counter = 0;
    timer.tima = 0;
    timer.tac = 0x05; // Enabled, clock 01.

    timer.tick(16);
    assert_eq!(timer.tima, 1);

    timer.tick(16);
    assert_eq!(timer.tima, 2);
}

#[test]
fn test_timer_overflow_sets_if_bit() {
    // TAC=0x05, TIMA=0xFF, TMA=0x42; after 16 cycles through the bus,
    // TIMA has reloaded and IF bit 2 is set.
    let mut bus = Bus::new();
    bus.timer.internal_counter = 0;
    bus.timer.tima = 0xFF;
    bus.timer.tma = 0x42;
    bus.timer.tac = 0x05;

    bus.tick(16);

    assert_eq!(bus.timer.tima, 0x42);
    assert_eq!(bus.read(0xFF0F) & 0x04, 0x04);
}

#[test]
fn test_tac_write_falling_edge() {
    // Disabling the timer while the selected bit is set increments
    // TIMA once (the edge signal falls).
    let mut timer = Timer::new();
    timer.internal_counter = 0x0008; // Bit 3 set.
    timer.tima = 0;
    timer.tac = 0x05; // Enabled, selecting bit 3.

    timer.write_tac(0x00); // Disable.
    assert_eq!(timer.tima, 1);
}

#[test]
fn test_div_reset_falling_edge() {
    // Resetting DIV while the selected bit is set increments TIMA.
    let mut timer = Timer::new();
    timer.internal_counter = 0x0008; // Bit 3 set.
    timer.tima = 0;
    timer.tac = 0x05; // Enabled, selecting bit 3.

    timer.reset_div();
    assert_eq!(timer.div(), 0);
    assert_eq!(timer.tima, 1);
}
