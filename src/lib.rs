//! Fills a caller's buffer with random bytes from the Linux kernel.
//!
//! The kernel offers two sources: the `getrandom` system call, and the
//! `/dev/urandom` device on kernels that lack it. This library holds the
//! decisions around them, each proved against its contract:
//!
//! - [`kernel`] reads what the system call returned: whether a fill succeeded,
//!   and whether the availability probe shows the call to be present;
//! - [`source`] is the per-thread source selector, a state machine that tells
//!   its driver which outside step to take next and records the resolved
//!   source, so that each thread resolves it once.
//!
//! The driver that performs the system calls, the device reads and the
//! process-wide flags stands outside this crate.
pub mod error;
pub mod kernel;
pub mod source;
