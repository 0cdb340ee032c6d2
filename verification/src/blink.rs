//! The software-delay blink loop: a two-state machine (LED on, LED off)
//! whose single transition, toggle, fires at fixed counter values.
//!
//! One loop iteration advances a counter; the step taken at the half-period
//! value drives the LED high, the step taken at the full-period value
//! drives it low and restarts the counter, and every other step leaves the
//! LED alone. The lemmas below pin the whole trajectory down: the counter
//! follows `n % (BLINK_PERIOD + 1)`, the LED is high exactly in the second
//! half of each period, and each transition happens exactly once per
//! period — never zero times, never twice.

use vstd::prelude::*;
use vstd::arithmetic::div_mod::{
    lemma_fundamental_div_mod,
    lemma_fundamental_div_mod_converse_mod,
    lemma_small_mod,
};
use crate::bits::{bit8, set_bit8, clear_bit8};
use crate::regs::Port;

verus! {

/// Counter value whose step restarts the count and drives the LED low.
pub const BLINK_PERIOD: u32 = 10000;

/// Counter value whose step drives the LED high.
pub const BLINK_HALF: u32 = 5000;

/// What one loop iteration does to the LED.
#[derive(Clone, Copy, PartialEq, Eq, Structural, Debug)]
pub enum LedAction {
    /// Leave the output latch alone.
    Idle,
    /// Drive the output latch high.
    DriveHigh,
    /// Drive the output latch low.
    DriveLow,
}

/// The counter after one step from `ctl`.
pub open spec fn spec_step_ctl(ctl: u32) -> u32 {
    if ctl >= BLINK_PERIOD {
        0
    } else {
        (ctl + 1) as u32
    }
}

/// The LED action of the step taken at counter value `ctl`.
pub open spec fn spec_step_action(ctl: u32) -> LedAction {
    if ctl >= BLINK_PERIOD {
        LedAction::DriveLow
    } else if ctl == BLINK_HALF {
        LedAction::DriveHigh
    } else {
        LedAction::Idle
    }
}

/// One iteration of the delay loop, as a decision: next counter value and
/// the LED action to perform.
pub fn blink_step(ctl: u32) -> (r: (u32, LedAction))
    ensures
        r.0 == spec_step_ctl(ctl),
        r.1 == spec_step_action(ctl),
{
    if ctl >= BLINK_PERIOD {
        (0, LedAction::DriveLow)
    } else if ctl == BLINK_HALF {
        (ctl + 1, LedAction::DriveHigh)
    } else {
        (ctl + 1, LedAction::Idle)
    }
}

/// Drive the LED pin as the action demands. Only the output latch of that
/// one pin can change; every other register and pin is untouched.
pub fn apply_led_action(p: &mut Port, pin: u8, action: LedAction)
    requires
        pin < 8,
    ensures
        action == LedAction::DriveHigh ==> final(p).led_on(pin),
        action == LedAction::DriveLow ==> !final(p).led_on(pin),
        action == LedAction::Idle ==> final(p).out == old(p).out,
        final(p).dir == old(p).dir,
        final(p).ren == old(p).ren,
        final(p).sel0 == old(p).sel0,
        final(p).sel1 == old(p).sel1,
        final(p).ies == old(p).ies,
        final(p).ie == old(p).ie,
        final(p).ifg == old(p).ifg,
        forall|j: u8| j < 8 && j != pin ==> bit8(final(p).out, j) == bit8(old(p).out, j),
{
    match action {
        LedAction::Idle => {
        },
        LedAction::DriveHigh => {
            p.out = set_bit8(p.out, pin);
        },
        LedAction::DriveLow => {
            p.out = clear_bit8(p.out, pin);
        },
    }
}

/// The counter after `n` iterations from reset.
pub open spec fn ctl_after(n: nat) -> u32
    decreases n,
{
    if n == 0 {
        0
    } else {
        spec_step_ctl(ctl_after((n - 1) as nat))
    }
}

/// The LED latch after `n` iterations from reset (LED starting low).
pub open spec fn led_after(n: nat) -> bool
    decreases n,
{
    if n == 0 {
        false
    } else {
        match spec_step_action(ctl_after((n - 1) as nat)) {
            LedAction::DriveHigh => true,
            LedAction::DriveLow => false,
            LedAction::Idle => led_after((n - 1) as nat),
        }
    }
}

/// The LED action of the iteration taken at time `n`.
pub open spec fn action_at(n: nat) -> LedAction {
    spec_step_action(ctl_after(n))
}

/// A step drives the LED high only at the half-period counter value and
/// low only at the full-period value, and no step does both: each
/// iteration performs at most one transition.
pub proof fn lemma_toggle_points(ctl: u32)
    ensures
        (spec_step_action(ctl) == LedAction::DriveHigh) <==> ctl == BLINK_HALF,
        (spec_step_action(ctl) == LedAction::DriveLow) <==> ctl >= BLINK_PERIOD,
{
}

/// Along the whole run the counter never leaves `0 ..= BLINK_PERIOD`, and
/// the LED is high exactly while the counter sits in the second half of
/// the period.
pub proof fn lemma_blink_invariant(n: nat)
    ensures
        ctl_after(n) <= BLINK_PERIOD,
        led_after(n) == (BLINK_HALF < ctl_after(n)),
    decreases n,
{
    if n > 0 {
        lemma_blink_invariant((n - 1) as nat);
    }
}

/// Closed form of the trajectory: after `n` iterations the counter is
/// `n % (BLINK_PERIOD + 1)`, and the LED is high exactly when that residue
/// lies in the second half of the period.
pub proof fn lemma_blink_trajectory(n: nat)
    ensures
        ctl_after(n) == n % ((BLINK_PERIOD + 1) as nat),
        led_after(n) == (BLINK_HALF < n % ((BLINK_PERIOD + 1) as nat)),
    decreases n,
{
    let len: int = BLINK_PERIOD as int + 1;
    if n == 0 {
        lemma_small_mod(0, len as nat);
    } else {
        lemma_blink_trajectory((n - 1) as nat);
        lemma_blink_invariant((n - 1) as nat);
        let m: int = (n - 1) as int % len;
        lemma_fundamental_div_mod((n - 1) as int, len);
        let q: int = (n - 1) as int / len;
        if m == BLINK_PERIOD as int {
            assert(n as int == (q + 1) * len + 0) by (nonlinear_arith)
                requires
                    (n - 1) as int == len * q + m,
                    m == len - 1,
            ;
            lemma_fundamental_div_mod_converse_mod(n as int, len, q + 1, 0);
        } else {
            assert(n as int == q * len + (m + 1));
            lemma_fundamental_div_mod_converse_mod(n as int, len, q, m + 1);
        }
    }
    lemma_blink_invariant(n);
}

/// The blink pattern is periodic: one full period later the counter and
/// the LED are back where they were.
pub proof fn lemma_blink_periodic(n: nat)
    ensures
        ctl_after(n + (BLINK_PERIOD + 1) as nat) == ctl_after(n),
        led_after(n + (BLINK_PERIOD + 1) as nat) == led_after(n),
{
    let len: int = BLINK_PERIOD as int + 1;
    lemma_blink_trajectory(n);
    lemma_blink_trajectory(n + (BLINK_PERIOD + 1) as nat);
    lemma_fundamental_div_mod(n as int, len);
    let q: int = n as int / len;
    let r: int = n as int % len;
    assert(n as int + len == (q + 1) * len + r) by (nonlinear_arith)
        requires
            n as int == len * q + r,
    ;
    lemma_fundamental_div_mod_converse_mod(n as int + len, len, q + 1, r);
}

/// Each transition happens exactly once per period: two distinct
/// iterations less than a full period apart cannot both drive the LED
/// high, nor both drive it low.
pub proof fn lemma_one_toggle_per_period(n1: nat, n2: nat)
    requires
        n1 < n2,
        n2 < n1 + (BLINK_PERIOD + 1) as nat,
    ensures
        !(action_at(n1) == LedAction::DriveHigh && action_at(n2) == LedAction::DriveHigh),
        !(action_at(n1) == LedAction::DriveLow && action_at(n2) == LedAction::DriveLow),
{
    let len: int = BLINK_PERIOD as int + 1;
    lemma_blink_trajectory(n1);
    lemma_blink_trajectory(n2);
    lemma_blink_invariant(n1);
    lemma_blink_invariant(n2);
    if ctl_after(n1) == ctl_after(n2) {
        lemma_fundamental_div_mod(n1 as int, len);
        lemma_fundamental_div_mod(n2 as int, len);
        let q1: int = n1 as int / len;
        let q2: int = n2 as int / len;
        let r: int = n1 as int % len;
        assert(false) by (nonlinear_arith)
            requires
                n1 as int == len * q1 + r,
                n2 as int == len * q2 + r,
                n1 < n2,
                (n2 as int) < n1 as int + len,
                len > 0,
        ;
    }
}

/// Each transition also happens at least once per period: counting from
/// any period boundary, the iteration at the half-period offset drives the
/// LED high and the one at the full-period offset drives it low.
pub proof fn lemma_toggles_happen(p: nat)
    requires
        ctl_after(p) == 0,
    ensures
        action_at(p + BLINK_HALF as nat) == LedAction::DriveHigh,
        action_at(p + BLINK_PERIOD as nat) == LedAction::DriveLow,
{
    let len: int = BLINK_PERIOD as int + 1;
    lemma_blink_trajectory(p);
    lemma_blink_trajectory(p + BLINK_HALF as nat);
    lemma_blink_trajectory(p + BLINK_PERIOD as nat);
    lemma_fundamental_div_mod(p as int, len);
    let q: int = p as int / len;
    assert(p as int + BLINK_HALF as int == q * len + BLINK_HALF as int);
    lemma_fundamental_div_mod_converse_mod(
        p as int + BLINK_HALF as int,
        len,
        q,
        BLINK_HALF as int,
    );
    lemma_fundamental_div_mod_converse_mod(
        p as int + BLINK_PERIOD as int,
        len,
        q,
        BLINK_PERIOD as int,
    );
}

/// One iteration of the delay loop against the port: advance the counter
/// and drive the LED as the step demands.
pub fn blink_tick(p: &mut Port, pin: u8, ctl: u32) -> (c2: u32)
    requires
        pin < 8,
    ensures
        c2 == spec_step_ctl(ctl),
        final(p).led_on(pin) == (match spec_step_action(ctl) {
            LedAction::DriveHigh => true,
            LedAction::DriveLow => false,
            LedAction::Idle => old(p).led_on(pin),
        }),
        final(p).dir == old(p).dir,
        final(p).ren == old(p).ren,
        final(p).sel0 == old(p).sel0,
        final(p).sel1 == old(p).sel1,
        final(p).ies == old(p).ies,
        final(p).ie == old(p).ie,
        final(p).ifg == old(p).ifg,
        forall|j: u8| j < 8 && j != pin ==> bit8(final(p).out, j) == bit8(old(p).out, j),
{
    let (c2, action) = blink_step(ctl);
    apply_led_action(p, pin, action);
    c2
}

/// Run `steps` iterations of the delay loop from its reset state (counter
/// zero, LED low) and hand back the final counter. The port ends exactly
/// where the trajectory spec says.
pub fn run_blink(p: &mut Port, pin: u8, steps: u32) -> (ctl: u32)
    requires
        pin < 8,
        !old(p).led_on(pin),
    ensures
        ctl == ctl_after(steps as nat),
        final(p).led_on(pin) == led_after(steps as nat),
        final(p).dir == old(p).dir,
        final(p).ren == old(p).ren,
        final(p).sel0 == old(p).sel0,
        final(p).sel1 == old(p).sel1,
        final(p).ies == old(p).ies,
        final(p).ie == old(p).ie,
        final(p).ifg == old(p).ifg,
        forall|j: u8| j < 8 && j != pin ==> bit8(final(p).out, j) == bit8(old(p).out, j),
{
    let mut ctl: u32 = 0;
    let mut i: u32 = 0;
    while i < steps
        invariant
            pin < 8,
            i <= steps,
            ctl == ctl_after(i as nat),
            p.led_on(pin) == led_after(i as nat),
            p.dir == old(p).dir,
            p.ren == old(p).ren,
            p.sel0 == old(p).sel0,
            p.sel1 == old(p).sel1,
            p.ies == old(p).ies,
            p.ie == old(p).ie,
            p.ifg == old(p).ifg,
            forall|j: u8| j < 8 && j != pin ==> bit8(p.out, j) == bit8(old(p).out, j),
        decreases steps - i,
    {
        ctl = blink_tick(p, pin, ctl);
        i = i + 1;
        assert(ctl_after(i as nat) == spec_step_ctl(ctl_after((i - 1) as nat)));
    }
    ctl
}

} // verus!
