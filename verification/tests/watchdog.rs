use blinky::regs::{Watchdog, WDT_HOLD};
use blinky::init::disable_watchdog;

#[test]
fn disable_combines_password_and_hold_in_one_write() {
    let mut wd = Watchdog::power_on();
    assert_eq!(wd.ctl, 0);
    assert!(!wd.reset_fired);
    disable_watchdog(&mut wd);
    assert_eq!(wd.ctl, WDT_HOLD);
    assert!(!wd.reset_fired);
}

#[test]
fn write_without_password_resets_device() {
    let mut wd = Watchdog::power_on();
    // The hold command alone, without the password in the high byte.
    wd.write_ctl(0x0080);
    assert!(wd.reset_fired);
    assert_eq!(wd.ctl, 0);
}

#[test]
fn write_with_wrong_password_resets_device() {
    let mut wd = Watchdog::power_on();
    wd.write_ctl(0x6980);
    assert!(wd.reset_fired);
    assert_eq!(wd.ctl, 0);
}

#[test]
fn passworded_write_programs_control_byte() {
    let mut wd = Watchdog::power_on();
    wd.write_ctl(0x5A80);
    assert!(!wd.reset_fired);
    assert_eq!(wd.ctl, 0x80);
}
