use blinky::bits::get_bit8;
use blinky::isr::latch_edge;
use blinky::share::{Context, PeripheralBank, CheckedCell, WriteOnceCell, enter_critical};
use blinky::program::{
    blink_main, setup_with_checked_cell, main_tick_with_checked_cell, setup_with_once_cell,
    isr_button_with_once_cell, setup_with_steal, isr_timer_with_steal,
};

#[test]
fn plain_blink_program_runs_once_per_device() {
    let mut bank = PeripheralBank::at_reset();
    let (p, ctl) = blink_main(&mut bank, 0, 5001).unwrap();
    assert_eq!(p.wdt.ctl, 0x80);
    assert!(!p.pmm.locklpm5);
    assert!(get_bit8(p.p1.dir, 0));
    assert!(get_bit8(p.p1.out, 0)); // just past the half period: LED on
    assert_eq!(ctl, 5001);
    // The device hands out only one handle per run.
    assert!(blink_main(&mut bank, 0, 5001).is_none());
}

#[test]
fn checked_cell_program_initializes_and_blinks() {
    let cs = enter_critical();
    let mut bank = PeripheralBank::at_reset();
    let mut cell = CheckedCell::empty();

    assert!(setup_with_checked_cell(&mut bank, &mut cell, &cs, 0));
    // A second program run against the same device cannot acquire again.
    let mut cell2 = CheckedCell::empty();
    assert!(!setup_with_checked_cell(&mut bank, &mut cell2, &cs, 0));

    // The watchdog is held and the LED pin is a function-0 output.
    let p = cell.begin_borrow(&cs).unwrap();
    assert!(get_bit8(p.p1.dir, 0));
    assert_eq!(p.p1.sel0 & 0x01, 0);
    assert_eq!(p.p1.sel1 & 0x01, 0);
    assert_eq!(p.wdt.ctl, 0x80);
    assert!(!p.pmm.locklpm5);
    cell.end_borrow(&cs, p);

    // Run the delay loop to just past the half period: the LED went high
    // at the iteration taken at the half-period counter value.
    let mut ctl: u32 = 0;
    for _ in 0..5001u32 {
        let (c2, ok) = main_tick_with_checked_cell(&mut cell, &cs, 0, ctl);
        assert!(ok);
        ctl = c2;
    }
    let p = cell.begin_borrow(&cs).unwrap();
    assert!(get_bit8(p.p1.out, 0));
    cell.end_borrow(&cs, p);
}

#[test]
fn checked_cell_tick_fails_without_setup() {
    let cs = enter_critical();
    let mut cell = CheckedCell::empty();
    let (ctl, ok) = main_tick_with_checked_cell(&mut cell, &cs, 0, 7);
    assert!(!ok);
    assert_eq!(ctl, 7);
}

#[test]
fn once_cell_program_services_one_edge_once() {
    let cs = enter_critical();
    let mut bank = PeripheralBank::at_reset();
    let mut cell = WriteOnceCell::empty();

    assert!(setup_with_once_cell(&mut bank, &mut cell, &cs, 0, 3, true));
    assert!(!setup_with_once_cell(&mut bank, &mut WriteOnceCell::empty(), &cs, 0, 3, true));

    // No edge yet: the handler finds nothing pending and touches nothing.
    assert!(!isr_button_with_once_cell(&mut cell, &cs, 0, 3));
    assert!(!get_bit8(cell.borrow(&cs).unwrap().p1.out, 0));

    // One physical edge: serviced exactly once.
    latch_edge(&mut cell.borrow_registers(&cs).p2, 3);
    assert!(isr_button_with_once_cell(&mut cell, &cs, 0, 3));
    let p = *cell.borrow(&cs).unwrap();
    assert!(get_bit8(p.p1.out, 0));
    assert!(!get_bit8(p.p2.ifg, 3));

    // The flag is gone, so the same edge cannot toggle again.
    assert!(!isr_button_with_once_cell(&mut cell, &cs, 0, 3));
    assert!(get_bit8(cell.borrow(&cs).unwrap().p1.out, 0));
}

#[test]
fn steal_program_toggles_once_per_compare_match() {
    let mut bank = PeripheralBank::at_reset();
    let ctx = Context::InterruptHandler;

    assert!(setup_with_steal(&mut bank, 0, 0, 10, 4));
    assert!(!setup_with_steal(&mut bank, 0, 0, 10, 4));

    // Nothing pending yet: the handler declines.
    assert!(!isr_timer_with_steal(&mut bank, &ctx, 0));

    // Let the hardware count to the toggle compare.
    let mut p = bank.steal(&ctx);
    for _ in 0..4 {
        p.timer.tick();
    }
    assert!(p.timer.toggle_ifg);
    bank.write_back(&p);

    // The compare match is serviced exactly once.
    assert!(isr_timer_with_steal(&mut bank, &ctx, 0));
    let q = bank.steal(&ctx);
    assert!(get_bit8(q.p1.out, 0));
    assert!(!q.timer.toggle_ifg);
    assert!(!isr_timer_with_steal(&mut bank, &ctx, 0));
    assert!(get_bit8(bank.steal(&ctx).p1.out, 0));
}
