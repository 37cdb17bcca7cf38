//! Replies of system calls and what they mean.

use vstd::prelude::*;

use crate::error::{os_error, viewed, IoError, IoErrorView};

verus! {

/// `vmm_sys_util::errno::Error`, the error of the socket helpers.
#[verifier::external_type_specification]
#[verifier::external_body]
pub struct ExErrno(vmm_sys_util::errno::Error);

/// The error number that an error of the socket helpers carries.
pub uninterp spec fn errno_of(error: vmm_sys_util::errno::Error) -> i32;

/// `vmm_sys_util::errno::Error::errno` returns the error number that the error
/// was made with.
pub assume_specification[ vmm_sys_util::errno::Error::errno ](
    error: vmm_sys_util::errno::Error,
) -> (code: i32)
    ensures
        code == errno_of(error),
;

/// What a system call reply means: a negative one is the failure that `errno`
/// names, any other one is the value of the call.
pub open spec fn os_outcome(reply: i64, errno: i32) -> Result<i64, IoErrorView> {
    if reply < 0 {
        Err(os_error(errno))
    } else {
        Ok(reply)
    }
}

/// Turns a system call reply, and the error number read after it, into a
/// result.
pub fn os_result(reply: i64, errno: i32) -> (result: Result<i64, IoError>)
    ensures
        viewed(result) == os_outcome(reply, errno),
{
    if reply < 0 {
        return Err(IoError::from_raw_os_error(errno));
    }
    Ok(reply)
}

/// The operating system error that an error of the socket helpers stands for.
pub fn errno_to_io(error: vmm_sys_util::errno::Error) -> (io: IoError)
    ensures
        io@ == os_error(errno_of(error)),
{
    IoError::from_raw_os_error(error.errno())
}

} // verus!
