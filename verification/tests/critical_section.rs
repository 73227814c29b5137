use riscv_mutex::free;
use riscv_mutex::status::disable;
use riscv_mutex::status::enable;
use riscv_mutex::status::read;
use riscv_mutex::StatusRegister;

#[test]
fn free_runs_op_and_returns_its_result() {
    let sr = StatusRegister::new(true);
    let (sr_after, r) = free(sr, |d| (d, 7u64));
    assert_eq!(r, 7);
    assert!(read(&sr_after).mie());
}

#[test]
fn free_disables_interrupts_during_op() {
    let sr = StatusRegister::new(true);
    let (sr_after, observed) = free(sr, |d| {
        let inside = read(&d).mie();
        (d, inside)
    });
    assert!(!observed);
    assert!(read(&sr_after).mie());
}

#[test]
fn nesting_invariant_scenario() {
    // Interrupts enabled, then an outer critical section around an inner
    // one: disabled throughout the outer call, still disabled right after
    // the inner call returns, enabled again only once the outer returns.
    let sr = StatusRegister::new(true);
    let (sr_after, (outer_inside, after_inner)) = free(sr, |d| {
        let outer_inside = read(&d).mie();
        let (d, ()) = free(d, |d2| (d2, ()));
        let after_inner = read(&d).mie();
        (d, (outer_inside, after_inner))
    });
    assert!(!outer_inside);
    assert!(!after_inner);
    assert!(read(&sr_after).mie());
}

#[test]
fn noop_restoration_when_entered_disabled() {
    let sr = StatusRegister::new(false);
    let (sr_after, ()) = free(sr, |d| (d, ()));
    assert!(!read(&sr_after).mie());
}

#[test]
fn noop_restoration_at_depth_two() {
    let sr = StatusRegister::new(false);
    let (sr_after, ()) = free(sr, |d| free(d, |d2| (d2, ())));
    assert!(!read(&sr_after).mie());
}

#[test]
fn read_is_idempotent() {
    let enabled = StatusRegister::new(true);
    assert_eq!(read(&enabled).mie(), read(&enabled).mie());
    let disabled = StatusRegister::new(false);
    assert_eq!(read(&disabled).mie(), read(&disabled).mie());
}

#[test]
fn disable_and_enable_set_the_flag() {
    let mut sr = StatusRegister::new(true);
    disable(&mut sr);
    assert!(!read(&sr).mie());
    disable(&mut sr);
    assert!(!read(&sr).mie());
    enable(&mut sr);
    assert!(read(&sr).mie());
}
