//! The example programs, one per sharing idiom: the main-context setup
//! that acquires the handle, initializes the hardware and parks the handle
//! where its idiom keeps it, and the handler-or-loop step that drives the
//! LED. The surrounding program supplies only the entry point and the
//! interrupt plumbing; every decision and every register value is here.

use vstd::prelude::*;
use crate::bits::{bit8, get_bit8};
use crate::regs::Peripherals;
use crate::init::{init_common, init_button_example, init_timer_example};
use crate::blink::{blink_tick, run_blink, spec_step_ctl, spec_step_action, ctl_after, led_after, LedAction};
use crate::isr::{service_button_edge, service_timer_toggle};
use crate::share::{Context, CriticalSection, PeripheralBank, CheckedCell, WriteOnceCell};

verus! {

/// The plain blink program, no sharing at all: the main context acquires
/// the handle once, runs the initialization sequence, and keeps sole
/// ownership while the delay loop runs. On hardware the loop runs forever;
/// here it runs the requested number of iterations and hands the handle
/// and the counter back so the caller can carry on. Fails — the fatal
/// acquisition error — exactly when the handle was already taken.
pub fn blink_main(bank: &mut PeripheralBank, led_pin: u8, steps: u32) -> (r: Option<
    (Peripherals, u32),
>)
    requires
        led_pin < 8,
    ensures
        (r is Some) == !old(bank).is_taken(),
        final(bank).is_taken(),
        (r matches Some((p, ctl)) ==> {
            &&& p.wdt.held()
            &&& p.wdt.reset_fired == old(bank).regs().wdt.reset_fired
            &&& p.p1.led_configured(led_pin)
            &&& !p.pmm.locklpm5
            &&& ctl == ctl_after(steps as nat)
            &&& p.p1.led_on(led_pin) == led_after(steps as nat)
        }),
{
    let taken = bank.take();
    match taken {
        Option::None => None,
        Option::Some(mut p) => {
            init_common(&mut p, led_pin, false);
            let ctl = run_blink(&mut p.p1, led_pin, steps);
            Some((p, ctl))
        },
    }
}

/// Setup of the delay-loop blink program under the checked-cell idiom:
/// one checked acquisition, the common hardware initialization, and the
/// handle stored into the shared slot inside a critical section. Fails —
/// the program's fatal acquisition error — exactly when the handle was
/// already taken, and then touches nothing.
pub fn setup_with_checked_cell(
    bank: &mut PeripheralBank,
    cell: &mut CheckedCell,
    cs: &CriticalSection,
    led_pin: u8,
) -> (ok: bool)
    requires
        cs.is_masked(),
        led_pin < 8,
        !old(cell).is_borrowed(),
    ensures
        ok == !old(bank).is_taken(),
        final(bank).is_taken(),
        !ok ==> *final(cell) == *old(cell),
        ok ==> !final(cell).is_borrowed(),
        ok ==> (final(cell).stored() matches Some(p) && {
            &&& p.wdt.held()
            &&& p.wdt.reset_fired == old(bank).regs().wdt.reset_fired
            &&& p.p1.led_configured(led_pin)
            &&& !p.p1.led_on(led_pin)
            &&& !p.pmm.locklpm5
        }),
{
    let taken = bank.take();
    match taken {
        Option::None => false,
        Option::Some(mut p) => {
            init_common(&mut p, led_pin, false);
            cell.store(cs, p);
            true
        },
    }
}

/// One iteration of the delay loop under the checked-cell idiom: enter the
/// slot, advance the counter, drive the LED, give the handle back. The
/// borrow fails — the fatal borrow error — exactly on an uninitialized or
/// already-borrowed slot, and then nothing moves.
pub fn main_tick_with_checked_cell(
    cell: &mut CheckedCell,
    cs: &CriticalSection,
    led_pin: u8,
    ctl: u32,
) -> (r: (u32, bool))
    requires
        cs.is_masked(),
        led_pin < 8,
    ensures
        r.1 == (old(cell).stored() is Some && !old(cell).is_borrowed()),
        !r.1 ==> *final(cell) == *old(cell) && r.0 == ctl,
        r.1 ==> r.0 == spec_step_ctl(ctl) && !final(cell).is_borrowed(),
        r.1 ==> (old(cell).stored() matches Some(p) && final(cell).stored() matches Some(q) && {
            &&& q.p1.led_on(led_pin) == (match spec_step_action(ctl) {
                LedAction::DriveHigh => true,
                LedAction::DriveLow => false,
                LedAction::Idle => p.p1.led_on(led_pin),
            })
            &&& q.p1.dir == p.p1.dir
            &&& q.p1.sel0 == p.p1.sel0
            &&& q.p1.sel1 == p.p1.sel1
            &&& q.wdt == p.wdt
            &&& q.p2 == p.p2
            &&& q.pmm == p.pmm
            &&& q.timer == p.timer
        }),
{
    let borrowed = cell.begin_borrow(cs);
    match borrowed {
        Option::None => (ctl, false),
        Option::Some(mut p) => {
            let ctl2 = blink_tick(&mut p.p1, led_pin, ctl);
            cell.end_borrow(cs, p);
            (ctl2, true)
        },
    }
}

/// Setup of the edge-triggered button program under the write-once idiom:
/// one checked acquisition, hardware initialization with the button input
/// armed, and the handle set into the write-once slot. Fails exactly when
/// the handle was already taken.
pub fn setup_with_once_cell(
    bank: &mut PeripheralBank,
    cell: &mut WriteOnceCell,
    cs: &CriticalSection,
    led_pin: u8,
    button_pin: u8,
    pull_up: bool,
) -> (ok: bool)
    requires
        cs.is_masked(),
        led_pin < 8,
        button_pin < 8,
        !old(cell).is_set(),
    ensures
        ok == !old(bank).is_taken(),
        final(bank).is_taken(),
        !ok ==> *final(cell) == *old(cell),
        ok ==> final(cell).is_set(),
        ok ==> (final(cell).stored() matches Some(p) && {
            &&& p.wdt.held()
            &&& p.wdt.reset_fired == old(bank).regs().wdt.reset_fired
            &&& p.p1.led_configured(led_pin)
            &&& !p.p1.led_on(led_pin)
            &&& !p.pmm.locklpm5
            &&& p.p2.button_configured(button_pin)
            &&& bit8(p.p2.ie, button_pin)
            &&& !p.p2.pending(button_pin)
            &&& bit8(p.p2.ies, button_pin) == pull_up
        }),
{
    let taken = bank.take();
    match taken {
        Option::None => false,
        Option::Some(mut p) => {
            init_button_example(&mut p, led_pin, button_pin, pull_up);
            cell.set_once(cs, p);
            true
        },
    }
}

/// The button handler under the write-once idiom: read the handle out of
/// the slot, and if the port really latched the edge, toggle the LED once
/// and clear the pending flag. Succeeds exactly when the slot is set and
/// the edge is pending; anything else leaves every register as it was.
pub fn isr_button_with_once_cell(
    cell: &mut WriteOnceCell,
    cs: &CriticalSection,
    led_pin: u8,
    button_pin: u8,
) -> (ok: bool)
    requires
        cs.is_masked(),
        led_pin < 8,
        button_pin < 8,
    ensures
        ok == (old(cell).stored() matches Some(p) && p.p2.pending(button_pin)),
        !ok ==> *final(cell) == *old(cell),
        ok ==> (old(cell).stored() matches Some(p) && final(cell).stored() matches Some(q) && {
            &&& !q.p2.pending(button_pin)
            &&& q.p1.led_on(led_pin) == !p.p1.led_on(led_pin)
            &&& q.p1.dir == p.p1.dir
            &&& q.p1.sel0 == p.p1.sel0
            &&& q.p1.sel1 == p.p1.sel1
            &&& q.p1.ie == p.p1.ie
            &&& q.p1.ifg == p.p1.ifg
            &&& q.p2.dir == p.p2.dir
            &&& q.p2.out == p.p2.out
            &&& q.p2.ren == p.p2.ren
            &&& q.p2.ie == p.p2.ie
            &&& q.p2.ies == p.p2.ies
            &&& (forall|j: u8| j < 8 && j != button_pin ==> bit8(q.p2.ifg, j) == bit8(p.p2.ifg, j))
            &&& q.wdt == p.wdt
            &&& q.pmm == p.pmm
            &&& q.timer == p.timer
        }),
{
    let present: bool = match cell.borrow(cs) {
        Option::None => false,
        Option::Some(p) => get_bit8(p.p2.ifg, button_pin),
    };
    if present {
        let p = cell.borrow_registers(cs);
        service_button_edge(&mut p.p2, &mut p.p1, button_pin, led_pin);
        true
    } else {
        false
    }
}

/// Setup of the timer-driven blink program under the storage-free idiom:
/// one checked acquisition, hardware initialization with the compare
/// timer running, and the registers written back to the device — no
/// shared slot exists; the handler re-derives its handle from the device.
pub fn setup_with_steal(
    bank: &mut PeripheralBank,
    led_pin: u8,
    divider: u8,
    period: u16,
    toggle_at: u16,
) -> (ok: bool)
    requires
        led_pin < 8,
        0 < period,
        toggle_at <= period,
    ensures
        ok == !old(bank).is_taken(),
        final(bank).is_taken(),
        !ok ==> final(bank).regs() == old(bank).regs(),
        ok ==> {
            &&& final(bank).regs().wdt.held()
            &&& final(bank).regs().wdt.reset_fired == old(bank).regs().wdt.reset_fired
            &&& final(bank).regs().p1.led_configured(led_pin)
            &&& !final(bank).regs().p1.led_on(led_pin)
            &&& !final(bank).regs().pmm.locklpm5
            &&& final(bank).regs().timer.running
            &&& final(bank).regs().timer.period == period
            &&& final(bank).regs().timer.toggle_at == toggle_at
            &&& final(bank).regs().timer.toggle_ie
            &&& !final(bank).regs().timer.toggle_ifg
        },
{
    let taken = bank.take();
    match taken {
        Option::None => false,
        Option::Some(mut p) => {
            init_timer_example(&mut p, led_pin, divider, period, toggle_at);
            bank.write_back(&p);
            true
        },
    }
}

/// The timer handler under the storage-free idiom: steal the handle —
/// sound only in handler context, which the precondition demands — and if
/// the toggle compare really is pending, toggle the LED once, clear the
/// flag, and write the registers back. Succeeds exactly when the compare
/// is pending; otherwise every register stays as it was.
pub fn isr_timer_with_steal(bank: &mut PeripheralBank, ctx: &Context, led_pin: u8) -> (ok: bool)
    requires
        led_pin < 8,
        *ctx is InterruptHandler,
    ensures
        final(bank).is_taken() == old(bank).is_taken(),
        ok == old(bank).regs().timer.toggle_ifg,
        !ok ==> final(bank).regs() == old(bank).regs(),
        ok ==> {
            &&& !final(bank).regs().timer.toggle_ifg
            &&& final(bank).regs().timer == (crate::regs::Timer {
                toggle_ifg: false,
                ..old(bank).regs().timer
            })
            &&& final(bank).regs().p1.led_on(led_pin) == !old(bank).regs().p1.led_on(led_pin)
            &&& final(bank).regs().p1.dir == old(bank).regs().p1.dir
            &&& final(bank).regs().p1.sel0 == old(bank).regs().p1.sel0
            &&& final(bank).regs().p1.sel1 == old(bank).regs().p1.sel1
            &&& final(bank).regs().wdt == old(bank).regs().wdt
            &&& final(bank).regs().p2 == old(bank).regs().p2
            &&& final(bank).regs().pmm == old(bank).regs().pmm
        },
{
    let mut p: Peripherals = bank.steal(ctx);
    if p.timer.toggle_ifg {
        service_timer_toggle(&mut p.timer, &mut p.p1, led_pin);
        bank.write_back(&p);
        true
    } else {
        false
    }
}

} // verus!
