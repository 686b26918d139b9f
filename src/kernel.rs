//! What the kernel's `getrandom` system call returned, read as decisions.
use vstd::prelude::*;

verus! {

/// A fill through the system call succeeded: it returned exactly the number
/// of bytes asked for. A negative return (an error) or a short one fails.
pub open spec fn fill_ok(ret: i64, len: usize) -> bool {
    ret as int == len as int
}

/// The availability probe (a fill of zero bytes) shows the system call to be
/// present: it succeeded, or it failed with any code other than the one that
/// means "not implemented".
pub open spec fn probe_available(ret: i64, errno: i32, unsupported: i32) -> bool {
    fill_ok(ret, 0) || errno != unsupported
}

/// Whether a `getrandom` call on a buffer of `len` bytes that returned `ret`
/// filled the whole buffer.
pub fn fill_succeeded(ret: i64, len: usize) -> (r: bool)
    ensures
        r == fill_ok(ret, len),
{
    ret >= 0 && ret as u64 == len as u64
}

/// Whether the zero-length probe shows the system call to be available, given
/// what it returned, the OS error code it left, and the code that means "not
/// implemented".
pub fn available_from_probe(ret: i64, errno: i32, unsupported: i32) -> (r: bool)
    ensures
        r == probe_available(ret, errno, unsupported),
{
    fill_succeeded(ret, 0) || errno != unsupported
}

/// The OS error code that means "system call not implemented" on the target
/// this crate is built for. libc fixes it per target (38 on most Linux
/// targets, 89 on MIPS, 90 on SPARC).
pub uninterp spec fn not_implemented_code(target: ()) -> i32;

/// Relies on `libc::ENOSYS`: the OS error code for a system call that the
/// running kernel does not implement, a constant of the build target.
#[verifier::external_body]
fn unsupported_code() -> (r: i32)
    ensures
        r == not_implemented_code(()),
{
    libc::ENOSYS
}

/// Whether the zero-length probe shows the system call to be available, with
/// the "not implemented" code of the target this crate was built for: the
/// probe succeeded, or it failed with any other code.
pub fn probe_shows_available(ret: i64, errno: i32) -> (r: bool)
    ensures
        r == probe_available(ret, errno, not_implemented_code(())),
{
    let code = unsupported_code();
    available_from_probe(ret, errno, code)
}

} // verus!
