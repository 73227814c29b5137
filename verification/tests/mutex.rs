use riscv_mutex::status::read;
use riscv_mutex::BorrowCell;
use riscv_mutex::LockError;
use riscv_mutex::RISCVMutex;
use riscv_mutex::StatusRegister;

#[test]
fn lock_grants_exclusive_access_to_the_value() {
    let m = RISCVMutex::new(41u64);
    let sr = StatusRegister::new(true);
    let (m, sr, seen) = m.lock(sr, |v, d| (v + 1, d, v));
    assert_eq!(seen, 41);
    assert_eq!(*m.access(), 42);
    assert!(read(&sr).mie());
}

#[test]
fn lock_exclusivity_pending_handler_never_interleaves() {
    // Model an interrupt handler as a second closure that would record its
    // intrusion in the protected value: it can only run outside the
    // critical section, so the locked closure sees the value exactly as
    // the prior lock call left it.
    let m = RISCVMutex::new(0u64);
    let sr = StatusRegister::new(true);
    let handler = |v: u64, d: StatusRegister| (v + 100, d, ());
    let (m, sr, first) = m.lock(sr, |v, d| (v + 1, d, v));
    assert_eq!(first, 0);
    // The handler is serviced only between the two lock calls.
    assert!(read(&sr).mie());
    let (m, sr, ()) = m.lock(sr, handler);
    let (m, sr, second) = m.lock(sr, |v, d| (v + 1, d, v));
    // The second lock call observes exactly what the prior call left.
    assert_eq!(second, 101);
    assert_eq!(*m.access(), 102);
    assert!(read(&sr).mie());
}

#[test]
fn end_to_end_five_increments() {
    // Mutex starts at 0 with interrupts enabled; five sequential lock
    // calls each increment the value; interrupts are enabled between
    // calls and disabled only during each call's body.
    let mut m = RISCVMutex::new(0u64);
    let mut sr = StatusRegister::new(true);
    for _ in 0..5 {
        let (m2, sr2, inside) = m.lock(sr, |v, d| {
            let inside = read(&d).mie();
            (v + 1, d, inside)
        });
        assert!(!inside);
        m = m2;
        sr = sr2;
        assert!(read(&sr).mie());
    }
    assert_eq!(*m.access(), 5);
}

#[test]
fn shared_lock_runs_the_closure() {
    let m = RISCVMutex::new(BorrowCell::new(10u64));
    let sr = StatusRegister::new(true);
    let (m, sr, r) = m.lock_shared(sr, |v, d| (v + 5, d, v));
    assert_eq!(r, Ok(10));
    let (_, _, r2) = m.lock_shared(sr, |v, d| (v, d, v));
    assert_eq!(r2, Ok(15));
}

#[test]
fn reentrant_shared_lock_is_refused() {
    // Storage whose value is already handed out to an active lock call:
    // a further lock attempt on it is reentrant and must be refused.
    let mut cell = BorrowCell::new(3u64);
    let taken = cell.take();
    assert_eq!(taken, Ok(3));
    let m = RISCVMutex::new(cell);
    let sr = StatusRegister::new(true);
    let (_, sr, r) = m.lock_shared(sr, |v, d| (v, d, v));
    assert_eq!(r, Err(LockError::ReentrantLock));
    // The register is still restored on the refused path.
    assert!(read(&sr).mie());
}

#[test]
fn borrow_cell_take_and_release() {
    let mut cell = BorrowCell::new(1u64);
    assert_eq!(cell.take(), Ok(1));
    assert_eq!(cell.take(), Err(LockError::ReentrantLock));
    cell.release(2);
    assert_eq!(cell.take(), Ok(2));
}

#[test]
fn access_reads_the_protected_value() {
    let m = RISCVMutex::new(9u8);
    assert_eq!(*m.access(), 9);
}
