//! Error numbers reported by the Storage Performance Development Kit.
use vstd::prelude::*;

verus! {

/// A POSIX error number; the constants of this module give its known values.
#[derive(Clone, Copy, Debug, PartialEq, Eq, Structural)]
pub struct Errno(pub i32);

impl Errno {
    /// Creates an error number from its numeric value.
    pub fn new(code: i32) -> (e: Errno)
        ensures
            e.0 == code,
    {
        Errno(code)
    }

    /// Returns the numeric value of this error number.
    pub fn code(&self) -> (c: i32)
        ensures
            c == self.0,
    {
        self.0
    }
}

/// No error.
pub const SUCCESS: i32 = 0;
/// Operation not permitted.
pub const EPERM: i32 = 1;
/// No such file or directory.
pub const ENOENT: i32 = 2;
/// Input/output error.
pub const EIO: i32 = 5;
/// Bad file descriptor.
pub const EBADF: i32 = 9;
/// Resource temporarily unavailable.
pub const EAGAIN: i32 = 11;
/// Cannot allocate memory.
pub const ENOMEM: i32 = 12;
/// No such device.
pub const ENODEV: i32 = 19;
/// Invalid argument.
pub const EINVAL: i32 = 22;
/// Operation now in progress.
pub const EINPROGRESS: i32 = 115;

/// The error number carried by a non-zero return code: SPDK functions return the negated
/// error number, and a positive code is taken as the error number itself.
pub open spec fn errno_of_rc(rc: i32) -> Errno {
    if rc < 0 && rc != i32::MIN { Errno(-rc as i32) } else { Errno(rc) }
}

/// Converts the return code of an SPDK function into a `Result`: zero is success, any
/// other value carries an error number.
pub fn to_result(rc: i32) -> (r: Result<(), Errno>)
    ensures
        rc == 0 <==> r is Ok,
        rc != 0 ==> r == Err::<(), Errno>(errno_of_rc(rc)),
{
    if rc == 0 {
        Ok(())
    } else if rc < 0 && rc != i32::MIN {
        Err(Errno(-rc))
    } else {
        Err(Errno(rc))
    }
}

} // verus!
