//! The memory-mapped register set, modelled as plain values.
//!
//! Each peripheral's registers are fixed-width unsigned integers with named
//! bit fields, exactly as the data sheet defines them. The model adds one
//! piece of hardware behaviour that matters to correctness: a watchdog
//! control write whose high byte is not the unlock password does not take
//! effect but resets the device.

use vstd::prelude::*;
use crate::bits::bit8;

verus! {

/// Watchdog unlock password: the value the high byte of every control write
/// must carry for the write to be accepted.
pub const WDT_PASSWORD: u16 = 0x5A;

/// Hold bit inside the watchdog control byte: stops the watchdog counter.
pub const WDT_HOLD: u8 = 0x80;

/// The watchdog timer module: its control byte, and the reset line a
/// password violation drives.
#[derive(Clone, Copy, PartialEq, Eq, Structural, Debug)]
pub struct Watchdog {
    /// Control bits (the low byte of the control register).
    pub ctl: u8,
    /// True once a control write without the password has reset the device.
    pub reset_fired: bool,
}

impl Watchdog {
    /// Register state right after power-on: watchdog running, no reset.
    pub open spec fn spec_power_on() -> Watchdog {
        Watchdog { ctl: 0, reset_fired: false }
    }

    /// What one control write does: the hardware compares the high byte of
    /// the written word against the password; on a match the low byte
    /// becomes the new control byte, on a mismatch the device resets and
    /// the control byte is untouched.
    pub open spec fn spec_write(self, value: u16) -> Watchdog {
        if value >> 8 == WDT_PASSWORD {
            Watchdog { ctl: (value & 0xFF) as u8, reset_fired: self.reset_fired }
        } else {
            Watchdog { ctl: self.ctl, reset_fired: true }
        }
    }

    /// True when the hold bit is set, i.e. the watchdog counter is stopped.
    pub open spec fn held(self) -> bool {
        self.ctl & WDT_HOLD != 0
    }

    pub fn power_on() -> (w: Watchdog)
        ensures
            w == Watchdog::spec_power_on(),
    {
        Watchdog { ctl: 0, reset_fired: false }
    }

    /// One write to the control register.
    pub fn write_ctl(&mut self, value: u16)
        ensures
            *final(self) == old(self).spec_write(value),
    {
        if value >> 8 == WDT_PASSWORD {
            proof {
                assert(value & 0xFF < 256) by (bit_vector);
            }
            self.ctl = (value & 0xFF) as u8;
        } else {
            self.reset_fired = true;
        }
    }
}

/// A write whose high byte lacks the password never reprograms the
/// watchdog: it only resets the device.
pub proof fn lemma_write_without_password_resets(w: Watchdog, value: u16)
    requires
        value >> 8 != WDT_PASSWORD,
    ensures
        w.spec_write(value).reset_fired,
        w.spec_write(value).ctl == w.ctl,
{
}

/// One digital I/O port: eight pins, each with a direction, output latch,
/// resistor enable, two function-select bits, and the three interrupt
/// registers (edge select, enable, pending flag).
#[derive(Clone, Copy, PartialEq, Eq, Structural, Debug)]
pub struct Port {
    /// Direction: bit set = output, clear = input.
    pub dir: u8,
    /// Output latch; for an input with its resistor enabled it selects
    /// pull-up (set) or pull-down (clear).
    pub out: u8,
    /// Pull resistor enable.
    pub ren: u8,
    /// Function select, low bit; both select bits clear = plain digital I/O.
    pub sel0: u8,
    /// Function select, high bit.
    pub sel1: u8,
    /// Interrupt edge select: set = falling edge triggers, clear = rising.
    pub ies: u8,
    /// Interrupt enable.
    pub ie: u8,
    /// Interrupt pending flags.
    pub ifg: u8,
}

impl Port {
    /// Register state right after power-on: everything inputs, nothing
    /// latched, nothing pending.
    pub open spec fn spec_power_on() -> Port {
        Port { dir: 0, out: 0, ren: 0, sel0: 0, sel1: 0, ies: 0, ie: 0, ifg: 0 }
    }

    pub fn power_on() -> (p: Port)
        ensures
            p == Port::spec_power_on(),
    {
        Port { dir: 0, out: 0, ren: 0, sel0: 0, sel1: 0, ies: 0, ie: 0, ifg: 0 }
    }

    /// Pin `i` drives an LED: configured as an output in plain digital I/O
    /// mode (both function-select bits clear).
    pub open spec fn led_configured(self, i: u8) -> bool {
        &&& bit8(self.dir, i)
        &&& !bit8(self.sel0, i)
        &&& !bit8(self.sel1, i)
    }

    /// Pin `i` reads a button: an input with its pull resistor enabled, in
    /// plain digital I/O mode.
    pub open spec fn button_configured(self, i: u8) -> bool {
        &&& !bit8(self.dir, i)
        &&& bit8(self.ren, i)
        &&& !bit8(self.sel0, i)
        &&& !bit8(self.sel1, i)
    }

    /// The output latch of pin `i`: for an LED pin, whether the LED is on.
    pub open spec fn led_on(self, i: u8) -> bool {
        bit8(self.out, i)
    }

    /// An interrupt is latched for pin `i`.
    pub open spec fn pending(self, i: u8) -> bool {
        bit8(self.ifg, i)
    }

    /// Pin `j` has the same state in `self` and `other`, across all eight
    /// per-pin registers.
    pub open spec fn same_pin(self, other: Port, j: u8) -> bool {
        &&& bit8(self.dir, j) == bit8(other.dir, j)
        &&& bit8(self.out, j) == bit8(other.out, j)
        &&& bit8(self.ren, j) == bit8(other.ren, j)
        &&& bit8(self.sel0, j) == bit8(other.sel0, j)
        &&& bit8(self.sel1, j) == bit8(other.sel1, j)
        &&& bit8(self.ies, j) == bit8(other.ies, j)
        &&& bit8(self.ie, j) == bit8(other.ie, j)
        &&& bit8(self.ifg, j) == bit8(other.ifg, j)
    }
}

/// The power-management module: only its low-power I/O lock matters here.
#[derive(Clone, Copy, PartialEq, Eq, Structural, Debug)]
pub struct Pmm {
    /// While set, I/O configuration stays frozen after a low-power state.
    pub locklpm5: bool,
}

impl Pmm {
    /// The lock is set when the device comes out of reset.
    pub open spec fn spec_power_on() -> Pmm {
        Pmm { locklpm5: true }
    }

    pub fn power_on() -> (m: Pmm)
        ensures
            m == Pmm::spec_power_on(),
    {
        Pmm { locklpm5: true }
    }

    /// Clear the low-power I/O lock so the pad configuration follows the
    /// port registers.
    pub fn unlock_lpm5(&mut self)
        ensures
            !final(self).locklpm5,
    {
        self.locklpm5 = false;
    }
}

/// The compare timer: divider, period and toggle compare values, the two
/// compare interrupt enables and pending flags, and the running counter.
/// Counting is the up mode: the counter climbs to the period value and
/// rolls over to zero.
#[derive(Clone, Copy, PartialEq, Eq, Structural, Debug)]
pub struct Timer {
    /// Input clock divider selection.
    pub divider: u8,
    /// Period compare value: the counter counts from 0 up to this value.
    pub period: u16,
    /// Secondary compare value: the toggle point within the period.
    pub toggle_at: u16,
    /// Up mode selected and the counter active.
    pub running: bool,
    /// Interrupt enable for the period compare.
    pub period_ie: bool,
    /// Interrupt enable for the toggle compare.
    pub toggle_ie: bool,
    /// Pending flag for the period compare.
    pub period_ifg: bool,
    /// Pending flag for the toggle compare.
    pub toggle_ifg: bool,
    /// The counter itself.
    pub count: u16,
}

impl Timer {
    /// Register state right after power-on: stopped, everything zero.
    pub open spec fn spec_power_on() -> Timer {
        Timer {
            divider: 0,
            period: 0,
            toggle_at: 0,
            running: false,
            period_ie: false,
            toggle_ie: false,
            period_ifg: false,
            toggle_ifg: false,
            count: 0,
        }
    }

    pub fn power_on() -> (t: Timer)
        ensures
            t == Timer::spec_power_on(),
    {
        Timer {
            divider: 0,
            period: 0,
            toggle_at: 0,
            running: false,
            period_ie: false,
            toggle_ie: false,
            period_ifg: false,
            toggle_ifg: false,
            count: 0,
        }
    }

    /// Select the up count mode and start the counter.
    ///
    /// The period compare register must already be programmed: starting the
    /// counter with a zero period leaves the length of the first period
    /// undefined, so the contract excludes it.
    pub fn start_up_mode(&mut self)
        requires
            old(self).period > 0,
        ensures
            *final(self) == (Timer { running: true, ..*old(self) }),
    {
        self.running = true;
    }

    /// What one timer clock does in up mode: the counter climbs by one, or
    /// rolls over to zero at the period compare. Reaching the period
    /// latches the period pending flag; reaching the toggle compare
    /// latches the toggle pending flag. A stopped timer does nothing.
    pub open spec fn spec_tick(self) -> Timer {
        if !self.running {
            self
        } else if self.count >= self.period {
            Timer { count: 0, period_ifg: true, ..self }
        } else {
            Timer {
                count: (self.count + 1) as u16,
                toggle_ifg: self.toggle_ifg || (self.count + 1) as u16 == self.toggle_at,
                ..self
            }
        }
    }

    /// One timer clock.
    pub fn tick(&mut self)
        ensures
            *final(self) == old(self).spec_tick(),
    {
        if !self.running {
        } else if self.count >= self.period {
            self.count = 0;
            self.period_ifg = true;
        } else {
            self.count = self.count + 1;
            if self.count == self.toggle_at {
                self.toggle_ifg = true;
            }
        }
    }
}

/// The whole register set behind one peripheral handle: watchdog, two I/O
/// ports, the power-management module, and the compare timer.
#[derive(Clone, Copy, PartialEq, Eq, Structural, Debug)]
pub struct Peripherals {
    pub wdt: Watchdog,
    pub p1: Port,
    pub p2: Port,
    pub pmm: Pmm,
    pub timer: Timer,
}

impl Peripherals {
    /// Every module at its power-on state.
    pub open spec fn spec_power_on() -> Peripherals {
        Peripherals {
            wdt: Watchdog::spec_power_on(),
            p1: Port::spec_power_on(),
            p2: Port::spec_power_on(),
            pmm: Pmm::spec_power_on(),
            timer: Timer::spec_power_on(),
        }
    }

    pub fn power_on() -> (p: Peripherals)
        ensures
            p == Peripherals::spec_power_on(),
    {
        Peripherals {
            wdt: Watchdog::power_on(),
            p1: Port::power_on(),
            p2: Port::power_on(),
            pmm: Pmm::power_on(),
            timer: Timer::power_on(),
        }
    }
}

} // verus!
