//! The one-time hardware initialization sequence.
//!
//! Order matters: the watchdog is stopped first (or it would reset the
//! device mid-setup), pins are configured next, interrupt plumbing is armed
//! only after its stale pending flag is cleared, the low-power I/O lock is
//! released, and a timer's period is programmed before the mode that starts
//! counting is selected.

use vstd::prelude::*;
use crate::bits::{bit8, set_bit8, clear_bit8, put_bit8};
use crate::regs::{Watchdog, Port, Timer, Peripherals, WDT_PASSWORD, WDT_HOLD};

verus! {

/// Stop the watchdog with a single control write that carries the unlock
/// password and the hold bit together. Because every write without the
/// password resets the device, hold and password must travel in one write;
/// this one is accepted and leaves the reset line untouched.
pub fn disable_watchdog(wd: &mut Watchdog)
    ensures
        final(wd).held(),
        final(wd).reset_fired == old(wd).reset_fired,
        final(wd).ctl == WDT_HOLD,
{
    let word: u16 = (WDT_PASSWORD << 8) | (WDT_HOLD as u16);
    proof {
        assert((0x5Au16 << 8) | (0x80u8 as u16) == 0x5A80u16) by (bit_vector);
        assert(0x5A80u16 >> 8 == 0x5Au16) by (bit_vector);
        assert(0x5A80u16 & 0xFF == 0x80u16) by (bit_vector);
        assert(0x80u8 & 0x80u8 != 0) by (bit_vector);
    }
    wd.write_ctl(word);
}

/// Configure `pin` as a plain digital output driving `level`: direction set
/// to output, both function-select bits cleared, the output latch at the
/// requested idle level. Every other pin of the port, and the port's
/// interrupt registers, are untouched.
pub fn init_led_pin(p: &mut Port, pin: u8, level: bool)
    requires
        pin < 8,
    ensures
        final(p).led_configured(pin),
        final(p).led_on(pin) == level,
        bit8(final(p).ren, pin) == bit8(old(p).ren, pin),
        bit8(final(p).ies, pin) == bit8(old(p).ies, pin),
        bit8(final(p).ie, pin) == bit8(old(p).ie, pin),
        bit8(final(p).ifg, pin) == bit8(old(p).ifg, pin),
        forall|j: u8| j < 8 && j != pin ==> final(p).same_pin(*old(p), j),
{
    p.dir = set_bit8(p.dir, pin);
    p.out = put_bit8(p.out, pin, level);
    p.sel0 = clear_bit8(p.sel0, pin);
    p.sel1 = clear_bit8(p.sel1, pin);
}

/// Configure `pin` as a pulled digital input with an edge-triggered
/// interrupt armed. The pull direction follows `pull_up`, and so does the
/// triggering edge: a pulled-up button falls when pressed, a pulled-down
/// one rises. The steps run in the order the hardware needs: pin
/// configuration first, then the stale pending flag is cleared, the edge is
/// selected, and only then is the interrupt enabled, so the enable cannot
/// latch a spurious interrupt out of the reconfiguration itself.
pub fn init_button_pin(p: &mut Port, pin: u8, pull_up: bool)
    requires
        pin < 8,
    ensures
        final(p).button_configured(pin),
        bit8(final(p).out, pin) == pull_up,
        bit8(final(p).ies, pin) == pull_up,
        bit8(final(p).ie, pin),
        !final(p).pending(pin),
        forall|j: u8| j < 8 && j != pin ==> final(p).same_pin(*old(p), j),
{
    p.dir = clear_bit8(p.dir, pin);
    p.ren = set_bit8(p.ren, pin);
    p.out = put_bit8(p.out, pin, pull_up);
    p.sel0 = clear_bit8(p.sel0, pin);
    p.sel1 = clear_bit8(p.sel1, pin);
    p.ifg = clear_bit8(p.ifg, pin);
    p.ies = put_bit8(p.ies, pin, pull_up);
    p.ie = set_bit8(p.ie, pin);
}

/// Program the compare timer and start it: divider, period, toggle point,
/// toggle-compare interrupt enabled, stale pending flags cleared, counter
/// at zero. The period is written before the up mode is selected, as the
/// hardware demands.
pub fn init_timer(t: &mut Timer, divider: u8, period: u16, toggle_at: u16)
    requires
        0 < period,
        toggle_at <= period,
    ensures
        *final(t) == (Timer {
            divider,
            period,
            toggle_at,
            running: true,
            period_ie: false,
            toggle_ie: true,
            period_ifg: false,
            toggle_ifg: false,
            count: 0,
        }),
{
    t.divider = divider;
    t.period = period;
    t.toggle_at = toggle_at;
    t.period_ie = false;
    t.toggle_ie = true;
    t.period_ifg = false;
    t.toggle_ifg = false;
    t.count = 0;
    t.start_up_mode();
}

/// The shared part of every example's setup, one parameterized procedure:
/// stop the watchdog, configure the LED pin on port 1 at the given idle
/// level, and release the low-power I/O lock.
pub fn init_common(p: &mut Peripherals, led_pin: u8, led_level: bool)
    requires
        led_pin < 8,
    ensures
        final(p).wdt.held(),
        final(p).wdt.reset_fired == old(p).wdt.reset_fired,
        final(p).p1.led_configured(led_pin),
        final(p).p1.led_on(led_pin) == led_level,
        !final(p).pmm.locklpm5,
        final(p).p2 == old(p).p2,
        final(p).timer == old(p).timer,
        bit8(final(p).p1.ie, led_pin) == bit8(old(p).p1.ie, led_pin),
        bit8(final(p).p1.ifg, led_pin) == bit8(old(p).p1.ifg, led_pin),
        forall|j: u8| j < 8 && j != led_pin ==> final(p).p1.same_pin(old(p).p1, j),
{
    disable_watchdog(&mut p.wdt);
    init_led_pin(&mut p.p1, led_pin, led_level);
    p.pmm.unlock_lpm5();
}

/// Setup for the edge-triggered example: the common sequence, then the
/// button input on port 2 with its interrupt armed.
pub fn init_button_example(p: &mut Peripherals, led_pin: u8, button_pin: u8, pull_up: bool)
    requires
        led_pin < 8,
        button_pin < 8,
    ensures
        final(p).wdt.held(),
        final(p).wdt.reset_fired == old(p).wdt.reset_fired,
        final(p).p1.led_configured(led_pin),
        !final(p).p1.led_on(led_pin),
        !final(p).pmm.locklpm5,
        final(p).p2.button_configured(button_pin),
        bit8(final(p).p2.ie, button_pin),
        !final(p).p2.pending(button_pin),
        bit8(final(p).p2.ies, button_pin) == pull_up,
        final(p).timer == old(p).timer,
        forall|j: u8| j < 8 && j != led_pin ==> final(p).p1.same_pin(old(p).p1, j),
        forall|j: u8| j < 8 && j != button_pin ==> final(p).p2.same_pin(old(p).p2, j),
{
    init_common(p, led_pin, false);
    init_button_pin(&mut p.p2, button_pin, pull_up);
}

/// Setup for the timer-driven example: the common sequence, then the
/// compare timer programmed and running.
pub fn init_timer_example(p: &mut Peripherals, led_pin: u8, divider: u8, period: u16, toggle_at: u16)
    requires
        led_pin < 8,
        0 < period,
        toggle_at <= period,
    ensures
        final(p).wdt.held(),
        final(p).wdt.reset_fired == old(p).wdt.reset_fired,
        final(p).p1.led_configured(led_pin),
        !final(p).p1.led_on(led_pin),
        !final(p).pmm.locklpm5,
        final(p).p2 == old(p).p2,
        final(p).timer == (Timer {
            divider,
            period,
            toggle_at,
            running: true,
            period_ie: false,
            toggle_ie: true,
            period_ifg: false,
            toggle_ifg: false,
            count: 0,
        }),
        forall|j: u8| j < 8 && j != led_pin ==> final(p).p1.same_pin(old(p).p1, j),
{
    init_common(p, led_pin, false);
    init_timer(&mut p.timer, divider, period, toggle_at);
}

} // verus!
