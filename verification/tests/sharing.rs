use blinky::regs::Peripherals;
use blinky::share::{
    Context, PeripheralBank, CheckedCell, WriteOnceCell, enter_critical,
};

#[test]
fn handle_is_acquired_exactly_once() {
    let mut bank = PeripheralBank::at_reset();
    let first = bank.take();
    assert!(first.is_some());
    let second = bank.take();
    assert!(second.is_none());
    let third = bank.take();
    assert!(third.is_none());
}

#[test]
fn taken_handle_carries_power_on_registers() {
    let mut bank = PeripheralBank::at_reset();
    let p = bank.take().unwrap();
    assert_eq!(p, Peripherals::power_on());
}

#[test]
fn checked_cell_borrow_before_init_fails() {
    let cs = enter_critical();
    let mut cell = CheckedCell::empty();
    assert!(cell.begin_borrow(&cs).is_none());
}

#[test]
fn checked_cell_rejects_second_borrow_while_borrowed() {
    let cs = enter_critical();
    let mut bank = PeripheralBank::at_reset();
    let mut cell = CheckedCell::empty();
    cell.store(&cs, bank.take().unwrap());

    let first = cell.begin_borrow(&cs);
    assert!(first.is_some());
    let second = cell.begin_borrow(&cs);
    assert!(second.is_none());

    cell.end_borrow(&cs, first.unwrap());
    let third = cell.begin_borrow(&cs);
    assert!(third.is_some());
}

#[test]
fn write_once_cell_sets_at_most_once() {
    let cs = enter_critical();
    let mut bank = PeripheralBank::at_reset();
    let mut cell = WriteOnceCell::empty();
    assert!(cell.borrow(&cs).is_none());

    let p = bank.take().unwrap();
    assert!(cell.set_once(&cs, p).is_none());
    assert!(cell.borrow(&cs).is_some());

    // The second set is rejected and the argument handed back.
    let rejected = cell.set_once(&cs, p);
    assert_eq!(rejected, Some(p));
    assert_eq!(*cell.borrow(&cs).unwrap(), p);
}

#[test]
fn steal_in_handler_context_sees_current_registers() {
    let mut bank = PeripheralBank::at_reset();
    let ctx = Context::InterruptHandler;

    let mut p = bank.steal(&ctx);
    assert_eq!(p, Peripherals::power_on());

    // A handler's register write, written back, is what the next steal sees.
    p.p1.out = 0x01;
    bank.write_back(&p);
    let q = bank.steal(&ctx);
    assert_eq!(q.p1.out, 0x01);
}

#[test]
fn steal_does_not_consume_the_checked_path() {
    let mut bank = PeripheralBank::at_reset();
    let ctx = Context::InterruptHandler;
    let _ = bank.steal(&ctx);
    // The once-only flag is untouched by the unchecked path.
    assert!(bank.take().is_some());
    assert!(bank.take().is_none());
}
