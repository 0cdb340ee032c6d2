//! Interrupt-handler bodies: what a handler decides and writes.
//!
//! A handler runs to completion with further interrupts masked, services
//! exactly the event that woke it, and clears that event's pending flag
//! before returning, so one physical trigger is serviced exactly once and
//! the flag cannot re-deliver it.

use vstd::prelude::*;
use crate::bits::{bit8, set_bit8, clear_bit8, toggle_bit8};
use crate::regs::{Port, Timer};

verus! {

/// The hardware latching a qualifying edge on pin `i`: the pending flag
/// rises; nothing else moves.
pub fn latch_edge(p: &mut Port, i: u8)
    requires
        i < 8,
    ensures
        final(p).pending(i),
        final(p).dir == old(p).dir,
        final(p).out == old(p).out,
        final(p).ren == old(p).ren,
        final(p).sel0 == old(p).sel0,
        final(p).sel1 == old(p).sel1,
        final(p).ies == old(p).ies,
        final(p).ie == old(p).ie,
        forall|j: u8| j < 8 && j != i ==> bit8(final(p).ifg, j) == bit8(old(p).ifg, j),
{
    p.ifg = set_bit8(p.ifg, i);
}

/// Handler for an edge interrupt on `button_pin`: toggle the LED exactly
/// once, and clear the pending flag so the one physical edge is serviced
/// exactly once — a second entry for the same edge is impossible because
/// its own precondition (the flag) is gone.
pub fn service_button_edge(button: &mut Port, led: &mut Port, button_pin: u8, led_pin: u8)
    requires
        button_pin < 8,
        led_pin < 8,
        old(button).pending(button_pin),
    ensures
        !final(button).pending(button_pin),
        final(led).led_on(led_pin) == !old(led).led_on(led_pin),
        final(button).dir == old(button).dir,
        final(button).out == old(button).out,
        final(button).ren == old(button).ren,
        final(button).sel0 == old(button).sel0,
        final(button).sel1 == old(button).sel1,
        final(button).ies == old(button).ies,
        final(button).ie == old(button).ie,
        forall|j: u8|
            j < 8 && j != button_pin ==> bit8(final(button).ifg, j) == bit8(old(button).ifg, j),
        final(led).dir == old(led).dir,
        final(led).ren == old(led).ren,
        final(led).sel0 == old(led).sel0,
        final(led).sel1 == old(led).sel1,
        final(led).ies == old(led).ies,
        final(led).ie == old(led).ie,
        final(led).ifg == old(led).ifg,
        forall|j: u8| j < 8 && j != led_pin ==> bit8(final(led).out, j) == bit8(old(led).out, j),
{
    led.out = toggle_bit8(led.out, led_pin);
    button.ifg = clear_bit8(button.ifg, button_pin);
}

/// Handler for the timer's toggle-compare interrupt: toggle the LED
/// exactly once per compare match, and clear the match's pending flag so
/// it is serviced exactly once.
pub fn service_timer_toggle(t: &mut Timer, led: &mut Port, led_pin: u8)
    requires
        led_pin < 8,
        old(t).toggle_ifg,
    ensures
        *final(t) == (Timer { toggle_ifg: false, ..*old(t) }),
        final(led).led_on(led_pin) == !old(led).led_on(led_pin),
        final(led).dir == old(led).dir,
        final(led).ren == old(led).ren,
        final(led).sel0 == old(led).sel0,
        final(led).sel1 == old(led).sel1,
        final(led).ies == old(led).ies,
        final(led).ie == old(led).ie,
        final(led).ifg == old(led).ifg,
        forall|j: u8| j < 8 && j != led_pin ==> bit8(final(led).out, j) == bit8(old(led).out, j),
{
    led.out = toggle_bit8(led.out, led_pin);
    t.toggle_ifg = false;
}

} // verus!
