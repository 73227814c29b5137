//! The interrupt-safe mutex.
//!
//! `RISCVMutex` owns exactly one value and serializes access to it by
//! running every access inside a critical section: `lock` delegates to the
//! executor, so for the duration of the caller's operation no interrupt
//! handler can run, and no other logical context can observe or mutate the
//! protected value. The processor's interrupt-enable state itself is the
//! lock state — there is no separate lock word, no spinning and no
//! blocking, which is sound exactly because there is a single execution
//! context that can be preempted.
//!
//! The shared-reference variant keeps its value in a [`BorrowCell`], whose
//! runtime single-writer check refuses a reentrant lock attempt on the
//! same storage from within an active lock call.

use vstd::prelude::*;

use crate::cell::BorrowCell;
use crate::cell::LockError;
use crate::interrupt::free;
use crate::interrupt::restored;
use crate::status::StatusRegister;

verus! {

/// A mutual-exclusion container for single-core processors: owns one
/// value and grants access to it only inside a critical section.
///
/// It is logically safe to share across interrupt boundaries precisely
/// because every access funnels through the executor; this is not a
/// general concurrent-access claim about the contained value.
pub struct RISCVMutex<T> {
    data: T,
}

impl<T> RISCVMutex<T> {
    /// The protected value.
    pub closed spec fn value(self) -> T {
        self.data
    }

    /// A mutex protecting `data`.
    pub fn new(data: T) -> (r: Self)
        ensures
            r.value() == data,
    {
        RISCVMutex { data }
    }

    /// A shared view of the protected value. Meant for storage that does
    /// its own access checking; all mutation goes through `lock`.
    pub fn access(&self) -> (r: &T)
        ensures
            *r == self.value(),
    {
        &self.data
    }

    /// Grants `f` exclusive access to the protected value for the
    /// duration of one critical section.
    ///
    /// `f` receives exactly the value as the prior `lock` call (or the
    /// constructor) left it, together with the register as it stands
    /// inside the critical section; the mutex afterwards holds exactly the
    /// value `f` returned, and the register holds the restoration of the
    /// state `f` left against the pre-call snapshot.
    pub fn lock<F, R>(self, sr: StatusRegister, f: F) -> (out: (Self, StatusRegister, R)) where
        F: FnOnce(T, StatusRegister) -> (T, StatusRegister, R),

        requires
            forall|d: StatusRegister|
                !d.interrupts_enabled() ==> #[trigger] call_requires(f, (self.value(), d)),
        ensures
            exists|d: StatusRegister, mid: StatusRegister|
                !d.interrupts_enabled() && #[trigger] call_ensures(
                    f,
                    (self.value(), d),
                    (out.0.value(), mid, out.2),
                ) && out.1.interrupts_enabled() == restored(
                    mid.interrupts_enabled(),
                    sr.interrupts_enabled(),
                ),
    {
        let ghost m0 = self;
        let RISCVMutex { data } = self;
        let op = |d: StatusRegister| -> (o: (StatusRegister, (T, R)))
            requires
                call_requires(f, (data, d)),
            ensures
                call_ensures(f, (data, d), (o.1.0, o.0, o.1.1)),
            {
                let (nd, ns, r) = f(data, d);
                (ns, (nd, r))
            };
        proof {
            assert forall|d: StatusRegister| !d.interrupts_enabled() implies call_requires(
                op,
                (d,),
            ) by {
                assert(call_requires(f, (m0.value(), d)));
            }
        }
        let (sr2, (data2, r)) = free(sr, op);
        let out = (RISCVMutex { data: data2 }, sr2, r);
        proof {
            let (d, mid) = choose|d: StatusRegister, mid: StatusRegister|
                !d.interrupts_enabled() && #[trigger] call_ensures(op, (d,), (mid, (data2, r)))
                    && sr2.interrupts_enabled() == restored(
                    mid.interrupts_enabled(),
                    sr.interrupts_enabled(),
                );
            assert(call_ensures(f, (data, d), (out.0.value(), mid, out.2)));
            assert(exists|d2: StatusRegister, mid2: StatusRegister|
                !d2.interrupts_enabled() && #[trigger] call_ensures(
                    f,
                    (data, d2),
                    (out.0.value(), mid2, out.2),
                ) && out.1.interrupts_enabled() == restored(
                    mid2.interrupts_enabled(),
                    sr.interrupts_enabled(),
                ));
        }
        out
    }
}

impl<T> RISCVMutex<BorrowCell<T>> {
    /// The shared-reference variant of `lock`: the protected value lives
    /// in runtime-checked single-writer storage, so a lock attempt that
    /// finds the value already handed out to an active lock call on the
    /// same storage is refused as reentrant.
    ///
    /// On a non-reentrant call this behaves exactly like `lock` on the
    /// inner value: `f` receives the stored value and the in-section
    /// register, the storage afterwards holds what `f` returned, and the
    /// result is `Ok`. A reentrant call returns `ReentrantLock`, leaves
    /// the storage borrowed as it found it, and still restores the
    /// register on the way out. The borrow check itself runs inside the
    /// critical section.
    pub fn lock_shared<F, R>(self, sr: StatusRegister, f: F) -> (out: (
        Self,
        StatusRegister,
        Result<R, LockError>,
    )) where F: FnOnce(T, StatusRegister) -> (T, StatusRegister, R)
        requires
            !self.value().is_borrowed() ==> forall|d: StatusRegister|
                !d.interrupts_enabled() ==> #[trigger] call_requires(
                    f,
                    (self.value().value(), d),
                ),
        ensures
            self.value().is_borrowed() ==> out.0.value().is_borrowed() && out.2 == Result::<
                R,
                LockError,
            >::Err(LockError::ReentrantLock) && out.1.interrupts_enabled()
                == sr.interrupts_enabled(),
            !self.value().is_borrowed() ==> !out.0.value().is_borrowed() && out.2 is Ok
                && exists|d: StatusRegister, mid: StatusRegister|
                !d.interrupts_enabled() && #[trigger] call_ensures(
                    f,
                    (self.value().value(), d),
                    (out.0.value().value(), mid, out.2->Ok_0),
                ) && out.1.interrupts_enabled() == restored(
                    mid.interrupts_enabled(),
                    sr.interrupts_enabled(),
                ),
    {
        let ghost m0 = self;
        let RISCVMutex { data: cell } = self;
        let op = |d: StatusRegister| -> (o: (
            StatusRegister,
            (BorrowCell<T>, Result<R, LockError>),
        ))
            requires
                !cell.is_borrowed() ==> call_requires(f, (cell.value(), d)),
            ensures
                cell.is_borrowed() ==> o.1.0.is_borrowed() && o.1.1 == Result::<
                    R,
                    LockError,
                >::Err(LockError::ReentrantLock) && o.0 == d,
                !cell.is_borrowed() ==> !o.1.0.is_borrowed() && o.1.1 is Ok && call_ensures(
                    f,
                    (cell.value(), d),
                    (o.1.0.value(), o.0, o.1.1->Ok_0),
                ),
            {
                let mut inner = cell;
                match inner.take() {
                    Ok(v) => {
                        let (nv, ns, r) = f(v, d);
                        inner.release(nv);
                        (ns, (inner, Ok(r)))
                    },
                    Err(e) => (d, (inner, Err(e))),
                }
            };
        proof {
            assert forall|d: StatusRegister| !d.interrupts_enabled() implies call_requires(
                op,
                (d,),
            ) by {
                if !m0.value().is_borrowed() {
                    assert(call_requires(f, (m0.value().value(), d)));
                }
            }
        }
        let (sr2, (cell2, res)) = free(sr, op);
        let out = (RISCVMutex { data: cell2 }, sr2, res);
        proof {
            let (d, mid) = choose|d: StatusRegister, mid: StatusRegister|
                !d.interrupts_enabled() && #[trigger] call_ensures(op, (d,), (mid, (cell2, res)))
                    && sr2.interrupts_enabled() == restored(
                    mid.interrupts_enabled(),
                    sr.interrupts_enabled(),
                );
            if m0.value().is_borrowed() {
                assert(mid == d);
            } else {
                assert(call_ensures(f, (m0.value().value(), d), (cell2.value(), mid, res->Ok_0)));
                assert(exists|d2: StatusRegister, mid2: StatusRegister|
                    !d2.interrupts_enabled() && #[trigger] call_ensures(
                        f,
                        (m0.value().value(), d2),
                        (out.0.value().value(), mid2, out.2->Ok_0),
                    ) && out.1.interrupts_enabled() == restored(
                        mid2.interrupts_enabled(),
                        sr.interrupts_enabled(),
                    ));
            }
        }
        out
    }
}

} // verus!
