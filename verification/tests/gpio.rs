use blinky::regs::Port;
use blinky::bits::get_bit8;
use blinky::init::{init_led_pin, init_button_pin};
use blinky::isr::{latch_edge, service_button_edge};

#[test]
fn led_pin_is_output_function_zero() {
    let mut p = Port::power_on();
    init_led_pin(&mut p, 0, false);
    assert_eq!(p.dir, 0x01);
    assert_eq!(p.sel0, 0x00);
    assert_eq!(p.sel1, 0x00);
    assert_eq!(p.out, 0x00);
}

#[test]
fn led_pin_idle_high_drives_output() {
    let mut p = Port::power_on();
    init_led_pin(&mut p, 3, true);
    assert!(get_bit8(p.dir, 3));
    assert!(get_bit8(p.out, 3));
    assert!(!get_bit8(p.sel0, 3));
    assert!(!get_bit8(p.sel1, 3));
}

#[test]
fn led_pin_leaves_other_pins_alone() {
    let mut p = Port::power_on();
    p.dir = 0xF0;
    p.out = 0x0C;
    init_led_pin(&mut p, 0, false);
    assert_eq!(p.dir, 0xF1);
    assert_eq!(p.out, 0x0C);
}

#[test]
fn button_pin_is_pulled_input_function_zero() {
    let mut p = Port::power_on();
    p.ifg = 0x08;  // a stale latched interrupt on the button pin
    init_button_pin(&mut p, 3, true);
    assert!(!get_bit8(p.dir, 3));
    assert!(get_bit8(p.ren, 3));
    assert!(get_bit8(p.out, 3));  // pull-up
    assert!(!get_bit8(p.sel0, 3));
    assert!(!get_bit8(p.sel1, 3));
    assert!(get_bit8(p.ies, 3));  // falling edge for a pulled-up button
    assert!(get_bit8(p.ie, 3));
    assert!(!get_bit8(p.ifg, 3));  // stale flag cleared before enabling
}

#[test]
fn button_pin_pull_down_takes_rising_edge() {
    let mut p = Port::power_on();
    init_button_pin(&mut p, 1, false);
    assert!(!get_bit8(p.out, 1));
    assert!(!get_bit8(p.ies, 1));
}

#[test]
fn one_edge_yields_one_toggle_and_clears_flag() {
    let mut button = Port::power_on();
    let mut led = Port::power_on();
    init_button_pin(&mut button, 3, true);
    init_led_pin(&mut led, 0, false);

    latch_edge(&mut button, 3);
    assert!(get_bit8(button.ifg, 3));

    service_button_edge(&mut button, &mut led, 3, 0);
    assert!(get_bit8(led.out, 0));  // toggled on
    assert!(!get_bit8(button.ifg, 3));  // pending flag clear right after handling

    // The same edge cannot be serviced twice: its flag is gone. A second
    // physical edge toggles exactly once more.
    latch_edge(&mut button, 3);
    service_button_edge(&mut button, &mut led, 3, 0);
    assert!(!get_bit8(led.out, 0));
    assert!(!get_bit8(button.ifg, 3));
}
