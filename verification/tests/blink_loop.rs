use blinky::regs::Port;
use blinky::bits::get_bit8;
use blinky::init::init_led_pin;
use blinky::blink::{blink_step, run_blink, LedAction, BLINK_PERIOD, BLINK_HALF};

#[test]
fn step_counts_and_acts_at_the_two_boundaries() {
    assert_eq!(blink_step(0), (1, LedAction::Idle));
    assert_eq!(blink_step(4999), (5000, LedAction::Idle));
    assert_eq!(blink_step(BLINK_HALF), (5001, LedAction::DriveHigh));
    assert_eq!(blink_step(5001), (5002, LedAction::Idle));
    assert_eq!(blink_step(9999), (10000, LedAction::Idle));
    assert_eq!(blink_step(BLINK_PERIOD), (0, LedAction::DriveLow));
}

#[test]
fn led_rises_once_per_period() {
    let mut p = Port::power_on();
    init_led_pin(&mut p, 0, false);
    // Up to and including the iteration taken at the half-period counter
    // value the LED has just been driven high; one step before, it is
    // still low.
    run_blink(&mut p, 0, 5000);
    assert!(!get_bit8(p.out, 0));

    let mut p = Port::power_on();
    init_led_pin(&mut p, 0, false);
    run_blink(&mut p, 0, 5001);
    assert!(get_bit8(p.out, 0));
}

#[test]
fn led_falls_once_at_the_period_end() {
    let mut p = Port::power_on();
    init_led_pin(&mut p, 0, false);
    run_blink(&mut p, 0, 10000);
    assert!(get_bit8(p.out, 0));

    let mut p = Port::power_on();
    init_led_pin(&mut p, 0, false);
    let ctl = run_blink(&mut p, 0, 10001);
    assert!(!get_bit8(p.out, 0));
    assert_eq!(ctl, 0);  // the counter restarted with the new period
}

#[test]
fn pattern_repeats_every_full_period() {
    let mut p1 = Port::power_on();
    init_led_pin(&mut p1, 0, false);
    let c1 = run_blink(&mut p1, 0, 7321);

    let mut p2 = Port::power_on();
    init_led_pin(&mut p2, 0, false);
    let c2 = run_blink(&mut p2, 0, 7321 + (BLINK_PERIOD + 1));

    assert_eq!(c1, c2);
    assert_eq!(get_bit8(p1.out, 0), get_bit8(p2.out, 0));
}

#[test]
fn counter_follows_the_residue() {
    let mut p = Port::power_on();
    init_led_pin(&mut p, 0, false);
    let ctl = run_blink(&mut p, 0, 25000);
    assert_eq!(ctl, 25000 % (BLINK_PERIOD + 1));
}

#[test]
fn loop_only_touches_the_led_pin() {
    let mut p = Port::power_on();
    init_led_pin(&mut p, 0, false);
    p.out |= 0x40;  // another pin's latch, driven by something else
    run_blink(&mut p, 0, 6000);
    assert!(get_bit8(p.out, 6));
    assert!(get_bit8(p.out, 0));
}
