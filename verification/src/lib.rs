//! A mutual-exclusion primitive for single-core processors, where the only
//! concurrency hazard is an asynchronous interrupt handler preempting the
//! main execution context.
//!
//! Mutual exclusion is achieved by preventing preemption: a critical-section
//! executor disables all maskable interrupts for the duration of a protected
//! operation and restores the previously observed interrupt-enable state
//! afterward. A mutex built on top of it serializes access to a protected
//! value by running every access inside such a critical section.
//!
//! The processor status register is modelled by the one field this library
//! reads and writes: the global interrupt-enable flag. A platform binding
//! maps that model onto the real hardware register; everything the library
//! proves holds for any binding that preserves the model's transitions.

pub mod cell;
pub mod interrupt;
pub mod mutex;
pub mod status;

pub use cell::BorrowCell;
pub use cell::LockError;
pub use interrupt::free;
pub use mutex::RISCVMutex;
pub use status::StatusRegister;
pub use status::StatusSnapshot;
pub use status::disable;
pub use status::enable;
