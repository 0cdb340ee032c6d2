//! Acquisition of the peripheral handle and the three idioms for sharing
//! it between the main context and interrupt handlers.
//!
//! In this model the `Peripherals` value is the register file itself, and
//! owning the value is what "being the one logical owner of the hardware"
//! means. The `PeripheralBank` is the device: the once-only availability
//! flag of the checked acquisition path, together with the registers a
//! handle is derived from. The two cells are the process-wide storage
//! slots of the first two sharing idioms; the third idiom has no storage
//! and re-derives the handle from the bank inside a handler.

use vstd::prelude::*;
use crate::regs::Peripherals;

verus! {

/// Which context the processor is executing in. Entry into a handler
/// masks further interrupts in hardware, so `InterruptHandler` also
/// witnesses that no other owner can run until the handler returns.
#[derive(Clone, Copy, PartialEq, Eq, Structural, Debug)]
pub enum Context {
    MainThread,
    InterruptHandler,
}

/// A witness that interrupts are masked for the bearer's scope, making a
/// sequence of slot operations atomic with respect to handlers. Both
/// contexts can obtain one: the main context by executing the disable
/// instruction, a handler because its entry already masked interrupts.
pub struct CriticalSection {
    masked: bool,
}

impl CriticalSection {
    /// Interrupts are masked for this witness's scope.
    pub closed spec fn is_masked(self) -> bool {
        self.masked
    }
}

/// Enter a critical section: disable interrupts for the returned witness's
/// scope.
pub fn enter_critical() -> (cs: CriticalSection)
    ensures
        cs.is_masked(),
{
    CriticalSection { masked: true }
}

/// The device: the once-only handle flag consulted by the checked
/// acquisition path, and the register file a handle carries.
pub struct PeripheralBank {
    taken: bool,
    regs: Peripherals,
}

impl PeripheralBank {
    /// The checked acquisition path has already handed the handle out.
    pub closed spec fn is_taken(self) -> bool {
        self.taken
    }

    /// The register file the next derived handle would carry.
    pub closed spec fn regs(self) -> Peripherals {
        self.regs
    }

    /// What one checked acquisition attempt does: on the first attempt the
    /// flag flips and the handle moves out; on every later attempt the
    /// bank is unchanged and nothing is handed out.
    pub closed spec fn spec_take(self) -> (PeripheralBank, Option<Peripherals>) {
        if self.is_taken() {
            (self, None)
        } else {
            (PeripheralBank { taken: true, regs: self.regs() }, Some(self.regs()))
        }
    }

    /// The device at power-on: handle available, registers at their reset
    /// defaults.
    pub fn at_reset() -> (b: PeripheralBank)
        ensures
            !b.is_taken(),
            b.regs() == Peripherals::spec_power_on(),
    {
        PeripheralBank { taken: false, regs: Peripherals::power_on() }
    }

    /// The checked, once-only acquisition. The first call hands the handle
    /// out; every later call fails rather than mint a duplicate owner.
    pub fn take(&mut self) -> (r: Option<Peripherals>)
        ensures
            *final(self) == old(self).spec_take().0,
            r == old(self).spec_take().1,
            final(self).is_taken(),
            (r is Some) == !old(self).is_taken(),
            !old(self).is_taken() ==> r == Some(old(self).regs()),
            old(self).is_taken() ==> *final(self) == *old(self),
            final(self).regs() == old(self).regs(),
    {
        if self.taken {
            None
        } else {
            self.taken = true;
            Some(self.regs)
        }
    }

    /// The owner's register writes reaching the device: the handle's
    /// register file becomes the bank's. The storage-free idiom calls this
    /// when a context is done writing, so the next derived handle carries
    /// the current state.
    pub fn write_back(&mut self, p: &Peripherals)
        ensures
            final(self).regs() == *p,
            final(self).is_taken() == old(self).is_taken(),
    {
        self.regs = *p;
    }

    /// Unchecked re-acquisition: derive a handle from the device without
    /// consulting or flipping the once-only flag.
    ///
    /// This is sound in exactly one place: inside an interrupt handler,
    /// where the hardware has already masked further interrupts, so the
    /// interrupted owner cannot run and the derived handle is the only
    /// live one. Calling it anywhere else would create two owners of the
    /// same registers; the context precondition is the guard that rules
    /// that out. It must never be used where the mask-on-entry guarantee
    /// does not hold — re-enabling interrupts inside a handler would break
    /// it.
    pub fn steal(&self, ctx: &Context) -> (r: Peripherals)
        requires
            *ctx is InterruptHandler,
        ensures
            r == self.regs(),
    {
        self.regs
    }
}

/// Exactly one successful acquisition of the handle is possible per run:
/// from any state at most one of two consecutive checked attempts
/// succeeds, from the power-on state the first succeeds, and after any
/// attempt a further attempt fails.
pub proof fn lemma_single_acquisition(b: PeripheralBank)
    ensures
        !b.is_taken() ==> b.spec_take().1 is Some,
        b.is_taken() ==> b.spec_take().1 is None,
        b.spec_take().0.spec_take().1 is None,
{
}

/// Sharing idiom 1: a slot guarded by a critical section, paying a
/// runtime presence check and borrow check on every access. The slot may
/// be re-written, but never while the handle is borrowed out of it.
pub struct CheckedCell {
    value: Option<Peripherals>,
    borrowed: bool,
}

impl CheckedCell {
    /// What the slot holds (whether or not it is currently borrowed).
    pub closed spec fn stored(self) -> Option<Peripherals> {
        self.value
    }

    /// A borrow is live.
    pub closed spec fn is_borrowed(self) -> bool {
        self.borrowed
    }

    /// What one borrow attempt does: it succeeds exactly on an initialized
    /// slot with no live borrow, and marks the borrow live.
    pub closed spec fn spec_begin_borrow(self) -> (CheckedCell, Option<Peripherals>) {
        if self.stored() is Some && !self.is_borrowed() {
            (CheckedCell { value: self.stored(), borrowed: true }, self.stored())
        } else {
            (self, None)
        }
    }

    /// The empty slot every run starts with.
    pub fn empty() -> (c: CheckedCell)
        ensures
            c.stored() is None,
            !c.is_borrowed(),
    {
        CheckedCell { value: None, borrowed: false }
    }

    /// Initialize (or re-initialize) the slot inside a critical section.
    /// Replacing the handle while it is borrowed out is the fatal-error
    /// case of the idiom, so the contract excludes it; the previous
    /// occupant, if any, is handed back.
    pub fn store(&mut self, cs: &CriticalSection, p: Peripherals) -> (prev: Option<Peripherals>)
        requires
            cs.is_masked(),
            !old(self).is_borrowed(),
        ensures
            final(self).stored() == Some(p),
            !final(self).is_borrowed(),
            prev == old(self).stored(),
    {
        let prev = self.value;
        self.value = Some(p);
        prev
    }

    /// Borrow the handle out of the slot. The result is the runtime check
    /// of the idiom: an uninitialized slot or a live borrow yields nothing
    /// — the caller treats that as the fatal error the runtime contract
    /// prescribes — and a success must be paired with `end_borrow`.
    pub fn begin_borrow(&mut self, cs: &CriticalSection) -> (r: Option<Peripherals>)
        requires
            cs.is_masked(),
        ensures
            *final(self) == old(self).spec_begin_borrow().0,
            r == old(self).spec_begin_borrow().1,
            (r is Some) == (old(self).stored() is Some && !old(self).is_borrowed()),
            r is Some ==> r == old(self).stored() && final(self).is_borrowed(),
            r is Some ==> final(self).stored() == old(self).stored(),
            r is None ==> *final(self) == *old(self),
    {
        if self.borrowed {
            None
        } else {
            match self.value {
                Option::None => None,
                Option::Some(p) => {
                    self.borrowed = true;
                    Some(p)
                },
            }
        }
    }

    /// Return the borrowed handle, with whatever register writes the
    /// borrower made, and release the borrow.
    pub fn end_borrow(&mut self, cs: &CriticalSection, p: Peripherals)
        requires
            cs.is_masked(),
            old(self).is_borrowed(),
        ensures
            final(self).stored() == Some(p),
            !final(self).is_borrowed(),
    {
        self.value = Some(p);
        self.borrowed = false;
    }
}

/// The borrow check of the checked cell is exclusive: while one borrow is
/// live every further attempt fails, and nothing can be borrowed out of a
/// slot that was never initialized.
pub proof fn lemma_checked_cell_exclusive(c: CheckedCell)
    ensures
        c.spec_begin_borrow().1 is Some ==> c.spec_begin_borrow().0.spec_begin_borrow().1 is None,
        c.stored() is None ==> c.spec_begin_borrow().1 is None,
        c.is_borrowed() ==> c.spec_begin_borrow().1 is None,
{
}

/// Sharing idiom 2: a write-once slot. Setting it can fail (when already
/// set) but reading needs no borrow bookkeeping: the handle, once stored,
/// is never replaced as a whole — handlers only write registers through
/// it.
pub struct WriteOnceCell {
    value: Option<Peripherals>,
}

impl WriteOnceCell {
    /// What the slot holds.
    pub closed spec fn stored(self) -> Option<Peripherals> {
        self.value
    }

    /// The slot has been set.
    pub open spec fn is_set(self) -> bool {
        self.stored() is Some
    }

    /// The empty slot every run starts with.
    pub fn empty() -> (c: WriteOnceCell)
        ensures
            !c.is_set(),
    {
        WriteOnceCell { value: None }
    }

    /// Set the slot, at most once: the first call stores the handle, every
    /// later call leaves the slot untouched and hands the argument back.
    pub fn set_once(&mut self, cs: &CriticalSection, p: Peripherals) -> (rejected: Option<
        Peripherals,
    >)
        requires
            cs.is_masked(),
        ensures
            !old(self).is_set() ==> final(self).stored() == Some(p) && rejected is None,
            old(self).is_set() ==> *final(self) == *old(self) && rejected == Some(p),
            final(self).is_set(),
    {
        match self.value {
            Option::None => {
                self.value = Some(p);
                None
            },
            Option::Some(_) => Some(p),
        }
    }

    /// Read access to the stored handle; fails exactly on a slot that was
    /// never set — the assertion the idiom makes on every read.
    pub fn borrow(&self, cs: &CriticalSection) -> (r: Option<&Peripherals>)
        requires
            cs.is_masked(),
        ensures
            (r is Some) == self.is_set(),
            (r matches Some(p) ==> Some(*p) == self.stored()),
    {
        self.value.as_ref()
    }

    /// Register-level write access for a handler: the registers inside the
    /// slot, reached without any borrow bookkeeping. The slot must already
    /// be set — reading an empty slot is the idiom's fatal error — and it
    /// stays set: only registers change, never the occupancy.
    pub fn borrow_registers(&mut self, cs: &CriticalSection) -> (r: &mut Peripherals)
        requires
            cs.is_masked(),
            old(self).is_set(),
        ensures
            (old(self).stored() matches Some(q) && *r == q),
            final(self).stored() == Some(*final(r)),
    {
        match &mut self.value {
            Option::Some(p) => p,
            Option::None => {
                proof {
                    assert(false);
                }
                unreached()
            },
        }
    }
}

} // verus!
