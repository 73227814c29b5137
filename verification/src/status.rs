//! The status-register interface: the narrow boundary between the library
//! and the processor.
//!
//! The processor status register holds, among other fields, the global
//! interrupt-enable flag. That flag is the only field the rest of the
//! library reads or writes, so the register is modelled by it alone. The
//! three operations — capture a snapshot, clear the flag, set the flag —
//! are the whole interface; a per-target binding mirrors these transitions
//! onto the hardware register.

use vstd::prelude::*;

verus! {

/// An immutable capture of the processor status register at a point in
/// time. Its one essential attribute is whether interrupts were enabled
/// when it was taken.
#[derive(Clone, Copy)]
pub struct StatusSnapshot {
    mie: bool,
}

impl StatusSnapshot {
    /// Whether the snapshot shows interrupts enabled.
    pub closed spec fn enabled(self) -> bool {
        self.mie
    }

    /// Reports whether interrupts were enabled at the time of the capture.
    pub fn mie(&self) -> (r: bool)
        ensures
            r == self.enabled(),
    {
        self.mie
    }
}

/// The processor status register, modelled by the single field the library
/// depends on: the global interrupt-enable flag.
pub struct StatusRegister {
    mie: bool,
}

impl StatusRegister {
    /// Whether the register currently has interrupts enabled.
    pub closed spec fn interrupts_enabled(self) -> bool {
        self.mie
    }

    /// A register in a known initial state.
    pub fn new(enabled: bool) -> (r: Self)
        ensures
            r.interrupts_enabled() == enabled,
    {
        StatusRegister { mie: enabled }
    }
}

/// Captures the current status register contents.
pub fn read(sr: &StatusRegister) -> (r: StatusSnapshot)
    ensures
        r.enabled() == sr.interrupts_enabled(),
{
    StatusSnapshot { mie: sr.mie }
}

/// Disables all maskable interrupts: clears the global interrupt-enable
/// flag unconditionally.
pub fn disable(sr: &mut StatusRegister)
    ensures
        !final(sr).interrupts_enabled(),
{
    sr.mie = false;
}

/// Enables all maskable interrupts: sets the global interrupt-enable flag
/// unconditionally.
///
/// Must not be called while logically inside an active critical section:
/// it is meant for the executor's restoration step alone, since enabling
/// interrupts mid-section would permit preemption and void the
/// mutual-exclusion guarantee.
pub fn enable(sr: &mut StatusRegister)
    ensures
        final(sr).interrupts_enabled(),
{
    sr.mie = true;
}

/// Reading the status register is idempotent: any two snapshots that
/// `read` may return for the same register state — two calls with no
/// `disable` or `enable` between them — agree on the interrupt-enable
/// flag. The hypotheses are exactly what `read` ensures of each snapshot.
pub proof fn lemma_read_idempotent(sr: StatusRegister, first: StatusSnapshot, second: StatusSnapshot)
    requires
        first.enabled() == sr.interrupts_enabled(),
        second.enabled() == sr.interrupts_enabled(),
    ensures
        first.enabled() == second.enabled(),
{
}

} // verus!
