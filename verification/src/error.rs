//! The portable errors, and how a native result becomes a value or an error.

use vstd::prelude::*;
use crate::winapi::{SOCKET, INVALID_SOCKET, SOCKET_ERROR, WSAESHUTDOWN};

verus! {

/// Why an operation failed.
#[derive(Clone, Copy, Debug, PartialEq, Eq)]
pub enum SocketError {
    /// The native call failed; the platform's error code, as it was.
    OsError(i32),
    /// A native address carried a family that is neither IPv4 nor IPv6.
    InvalidInput,
}

impl SocketError {
    /// The platform's error code, where the error has one.
    pub fn raw_os_error(&self) -> (code: Option<i32>)
        ensures
            code == match *self {
                SocketError::OsError(c) => Some(c),
                SocketError::InvalidInput => None,
            },
    {
        match self {
            SocketError::OsError(c) => Some(*c),
            SocketError::InvalidInput => None,
        }
    }
}

/// What a native call that returns zero on success stands for.
pub open spec fn status_spec(ret: i32, code: i32) -> Result<(), SocketError> {
    if ret == 0 {
        Ok(())
    } else {
        Err(SocketError::OsError(code))
    }
}

/// Reads the result of a native call that returns zero on success. `code` is
/// the platform's last error code, taken right after the call.
pub fn status(ret: i32, code: i32) -> (r: Result<(), SocketError>)
    ensures
        r == status_spec(ret, code),
{
    if ret == 0 {
        Ok(())
    } else {
        Err(SocketError::OsError(code))
    }
}

/// What a native transfer's result stands for. `SOCKET_ERROR` with the code
/// `WSAESHUTDOWN` says that the direction had been shut down, and stands for
/// zero bytes moved, as at the end of a stream. `SOCKET_ERROR` with any other
/// code is the platform's error. Any other result is the count of bytes
/// moved, as a cast to `usize` gives it.
pub open spec fn transferred_spec(ret: i32, code: i32) -> Result<usize, SocketError> {
    if ret == SOCKET_ERROR {
        if code == WSAESHUTDOWN {
            Ok(0usize)
        } else {
            Err(SocketError::OsError(code))
        }
    } else {
        Ok(ret as usize)
    }
}

/// Reads the result of a native send or receive. `code` is the platform's
/// last error code, taken right after the call.
pub fn transferred(ret: i32, code: i32) -> (r: Result<usize, SocketError>)
    ensures
        r == transferred_spec(ret, code),
        r is Ok <==> ret != SOCKET_ERROR || code == WSAESHUTDOWN,
        ret >= 0 ==> r is Ok && r->Ok_0 == ret,
{
    if ret == SOCKET_ERROR {
        if code == WSAESHUTDOWN {
            Ok(0)
        } else {
            Err(SocketError::OsError(code))
        }
    } else {
        Ok(#[verifier::truncate] (ret as usize))
    }
}

/// What a native call that returns a descriptor stands for.
pub open spec fn descriptor_spec(fd: SOCKET, code: i32) -> Result<SOCKET, SocketError> {
    if fd == INVALID_SOCKET {
        Err(SocketError::OsError(code))
    } else {
        Ok(fd)
    }
}

/// Reads the result of a native call that returns a descriptor. `code` is
/// the platform's last error code, taken right after the call.
pub fn descriptor(fd: SOCKET, code: i32) -> (r: Result<SOCKET, SocketError>)
    ensures
        r == descriptor_spec(fd, code),
{
    if fd == INVALID_SOCKET {
        Err(SocketError::OsError(code))
    } else {
        Ok(fd)
    }
}

/// What a native call that returns a count, or `SOCKET_ERROR`, stands for.
pub open spec fn counted_spec(ret: i32, code: i32) -> Result<i32, SocketError> {
    if ret == SOCKET_ERROR {
        Err(SocketError::OsError(code))
    } else {
        Ok(ret)
    }
}

/// Reads the result of a native call that returns a count, or `SOCKET_ERROR`.
/// `code` is the platform's last error code, taken right after the call.
pub fn counted(ret: i32, code: i32) -> (r: Result<i32, SocketError>)
    ensures
        r == counted_spec(ret, code),
{
    if ret == SOCKET_ERROR {
        Err(SocketError::OsError(code))
    } else {
        Ok(ret)
    }
}

} // verus!
