//! The critical-section executor.
//!
//! `free` runs a caller-supplied operation with all maskable interrupts
//! disabled and afterwards restores the interrupt-enable state it observed
//! on entry: it re-enables interrupts only if they were enabled beforehand,
//! and never leaves them more enabled than the operation itself left them.
//! Capturing the snapshot before disabling, and restoring conditionally,
//! is what makes critical sections nest: an inner call entered with
//! interrupts already disabled snapshots "disabled" and so leaves the
//! enclosing section intact on exit.
//!
//! The register travels through the call by value: the operation receives
//! the register as it stands inside the critical section and hands it back,
//! so a nested `free` call is an ordinary call on the handed-in register.

use vstd::prelude::*;

use crate::status::StatusRegister;
use crate::status::disable;
use crate::status::enable;
use crate::status::read;

verus! {

/// The interrupt-enable state after the executor's restoration step, given
/// the state `current` in which the protected operation left the register
/// and the state `snapshot` observed before entering the critical section:
/// interrupts are re-enabled exactly when the snapshot showed them enabled,
/// and are never switched off by the restoration itself.
pub open spec fn restored(current: bool, snapshot: bool) -> bool {
    current || snapshot
}

/// Executes `f` in an interrupt-free context (a critical section).
///
/// The register handed to `f` has interrupts disabled; whatever state `f`
/// leaves the register in, the returned register holds exactly the
/// restoration of that state against the entry snapshot. In particular,
/// when `f` leaves interrupts disabled — as every well-behaved operation
/// does, nested `free` calls included — the pre-call enable state is
/// restored exactly.
pub fn free<F, R>(sr: StatusRegister, f: F) -> (out: (StatusRegister, R)) where
    F: FnOnce(StatusRegister) -> (StatusRegister, R),

    requires
        forall|d: StatusRegister|
            !d.interrupts_enabled() ==> #[trigger] call_requires(f, (d,)),
    ensures
        exists|d: StatusRegister, mid: StatusRegister|
            !d.interrupts_enabled() && #[trigger] call_ensures(f, (d,), (mid, out.1))
                && out.0.interrupts_enabled() == restored(
                mid.interrupts_enabled(),
                sr.interrupts_enabled(),
            ),
{
    let ghost before = sr;
    let snapshot = read(&sr);
    let mut sr = sr;
    disable(&mut sr);
    let ghost entered = sr;
    let (inner, r) = f(sr);
    let mut inner = inner;
    let ghost left = inner;
    if snapshot.mie() {
        enable(&mut inner);
    }
    let out = (inner, r);
    proof {
        assert(call_ensures(f, (entered,), (left, out.1)));
        assert(out.0.interrupts_enabled() == restored(
            left.interrupts_enabled(),
            before.interrupts_enabled(),
        ));
        assert(exists|d: StatusRegister, mid: StatusRegister|
            !d.interrupts_enabled() && #[trigger] call_ensures(f, (d,), (mid, out.1))
                && out.0.interrupts_enabled() == restored(
                mid.interrupts_enabled(),
                before.interrupts_enabled(),
            ));
    }
    out
}

/// The interrupt-enable state while `depth` critical sections entered from
/// initial state `s0` are active: inside any active section, interrupts
/// are disabled.
pub open spec fn nest_state(s0: bool, depth: nat) -> bool {
    if depth == 0 {
        s0
    } else {
        false
    }
}

/// The snapshots captured by a nest of `depth` executor calls entered in
/// sequence from initial interrupt-enable state `s0`: the outermost call
/// snapshots `s0`; every inner call finds interrupts already disabled and
/// snapshots that.
pub open spec fn nest_snapshots(s0: bool, depth: nat) -> Seq<bool> {
    Seq::new(depth, |i: int| nest_state(s0, i as nat))
}

/// The interrupt-enable state after unwinding a stack of active critical
/// sections in last-in-first-out order, starting from state `current`:
/// each section's exit applies the executor's restoration step with the
/// snapshot that section captured on entry.
pub open spec fn unwind(snaps: Seq<bool>, current: bool) -> bool
    decreases snaps.len(),
{
    if snaps.len() == 0 {
        current
    } else {
        unwind(snaps.drop_last(), restored(current, snaps.last()))
    }
}

/// Nesting invariant: for any depth of nested `free` calls entered from
/// initial state `s0`, interrupts are disabled while any section of the
/// nest is active — inner completions never re-enable them early — and
/// unwinding the whole nest restores the pre-nest state `s0` exactly once,
/// at the outermost exit.
pub proof fn lemma_nesting_invariant(s0: bool, depth: nat)
    requires
        1 <= depth,
    ensures
        forall|d: nat| 1 <= d <= depth ==> !nest_state(s0, d),
        unwind(nest_snapshots(s0, depth), nest_state(s0, depth)) == s0,
    decreases depth,
{
    let snaps = nest_snapshots(s0, depth);
    if depth == 1 {
        assert(snaps.last() == s0);
        assert(unwind(snaps, false) == unwind(snaps.drop_last(), restored(false, s0)));
        assert(snaps.drop_last().len() == 0);
        assert(unwind(snaps.drop_last(), restored(false, s0)) == restored(false, s0));
    } else {
        lemma_nesting_invariant(s0, (depth - 1) as nat);
        assert(snaps.drop_last() =~= nest_snapshots(s0, (depth - 1) as nat));
        assert(snaps.last() == false);
        assert(restored(nest_state(s0, depth), snaps.last()) == nest_state(
            s0,
            (depth - 1) as nat,
        ));
    }
}

/// No-op restoration: if interrupts were disabled before a nest of `free`
/// calls of any depth, they are still disabled after the whole nest has
/// unwound.
pub proof fn lemma_noop_restoration(depth: nat)
    requires
        1 <= depth,
    ensures
        !unwind(nest_snapshots(false, depth), nest_state(false, depth)),
{
    lemma_nesting_invariant(false, depth);
}

} // verus!
