//! The native calls that the operations of a socket come down to.
//!
//! Each structure holds the arguments of one native call, as the operation
//! worked them out. Its `complete` takes what the call returned, with the
//! platform's last error code as it stood right after the call, and gives
//! the operation's outcome. A call is made once and completed once:
//! `complete` uses the structure up.

use vstd::prelude::*;
use crate::addr::{SocketAddr, is_inet, sockaddr_to_addr, sockaddr_to_addr_spec};
use crate::error::{
    SocketError, counted, counted_spec, descriptor, status, status_spec, transferred,
    transferred_spec,
};
use crate::socket::Socket;
use crate::winapi::{
    FD_SET, INVALID_SOCKET, SOCKADDR_STORAGE_LH, SOCKET, SOCKET_ERROR, WSAESHUTDOWN, len_covers,
    timeval,
};

verus! {

/// The native `socket` call, and whether the network subsystem has to be
/// started before it.
#[must_use]
#[derive(Debug, PartialEq, Eq)]
pub struct CreateCall {
    pub startup: bool,
    pub family: i32,
    pub kind: i32,
    pub protocol: i32,
}

impl CreateCall {
    /// The new socket, which owns the descriptor `fd`; or the platform's
    /// error where the native layer gave no descriptor.
    pub fn complete(self, fd: SOCKET, code: i32) -> (r: Result<Socket, SocketError>)
        ensures
            r is Ok <==> fd != INVALID_SOCKET,
            match r {
                Ok(s) => s.raw() == fd,
                Err(e) => e == SocketError::OsError(code),
            },
    {
        match descriptor(fd, code) {
            Ok(fd) => Ok(Socket::from_raw_socket(fd)),
            Err(e) => Err(e),
        }
    }
}

/// What `getsockname` stands for once it has returned `ret` and filled
/// storage with the family tag `family` and the bytes `data`.
pub open spec fn named_spec(ret: i32, code: i32, family: u16, data: Seq<u8>) -> Result<
    SocketAddr,
    SocketError,
> {
    if ret == SOCKET_ERROR {
        Err(SocketError::OsError(code))
    } else {
        sockaddr_to_addr_spec(family, data)
    }
}

/// The native `getsockname` call on zeroed storage of `namelen` bytes.
#[must_use]
#[derive(Debug, PartialEq, Eq)]
pub struct NameCall {
    pub socket: SOCKET,
    pub namelen: i32,
}

impl NameCall {
    /// Whether the native result is one that [`Self::complete`] takes: after
    /// a call that succeeded, the reported length covers the structure which
    /// the family announces.
    pub open spec fn spec_admits(ret: i32, family: u16, len: i32) -> bool {
        ret != SOCKET_ERROR ==> len_covers(family, len)
    }

    /// Tests whether the native result is one that [`Self::complete`]
    /// takes. One that it does not take shows a corrupt native result, on
    /// which the caller must stop.
    pub fn admits(&self, ret: i32, storage: &SOCKADDR_STORAGE_LH, len: i32) -> (b: bool)
        ensures
            b == Self::spec_admits(ret, storage.ss_family, len),
    {
        ret == SOCKET_ERROR || storage.covers(len)
    }

    /// The local address that the native layer wrote into `storage`, of
    /// which it reported `len` bytes as filled; the platform's error where
    /// the call failed; `InvalidInput` where the address is of a family that
    /// is neither IPv4 nor IPv6.
    pub fn complete(self, ret: i32, code: i32, storage: &SOCKADDR_STORAGE_LH, len: i32) -> (r:
        Result<SocketAddr, SocketError>)
        requires
            Self::spec_admits(ret, storage.ss_family, len),
        ensures
            r == named_spec(ret, code, storage.ss_family, storage.ss_data@),
            r is Ok <==> ret != SOCKET_ERROR && is_inet(storage.ss_family),
            r == Err::<SocketAddr, SocketError>(SocketError::OsError(code)) <==> ret
                == SOCKET_ERROR,
            r == Err::<SocketAddr, SocketError>(SocketError::InvalidInput) <==> ret != SOCKET_ERROR
                && !is_inet(storage.ss_family),
    {
        if ret == SOCKET_ERROR {
            Err(SocketError::OsError(code))
        } else {
            sockaddr_to_addr(storage, len)
        }
    }
}

/// The native `bind` call: `name` holds the encoded address, of which
/// `namelen` bytes count.
#[must_use]
#[derive(Debug, PartialEq, Eq)]
pub struct BindCall {
    pub socket: SOCKET,
    pub name: SOCKADDR_STORAGE_LH,
    pub namelen: i32,
}

impl BindCall {
    /// Success where the native call returned zero, else the platform's
    /// error.
    pub fn complete(self, ret: i32, code: i32) -> (r: Result<(), SocketError>)
        ensures
            r == status_spec(ret, code),
    {
        status(ret, code)
    }
}

/// The native `listen` call.
#[must_use]
#[derive(Debug, PartialEq, Eq)]
pub struct ListenCall {
    pub socket: SOCKET,
    pub backlog: i32,
}

impl ListenCall {
    /// Success where the native call returned zero, else the platform's
    /// error.
    pub fn complete(self, ret: i32, code: i32) -> (r: Result<(), SocketError>)
        ensures
            r == status_spec(ret, code),
    {
        status(ret, code)
    }
}

/// The native `recv` call into the first `len` bytes of the buffer.
#[must_use]
#[derive(Debug, PartialEq, Eq)]
pub struct RecvCall {
    pub socket: SOCKET,
    pub len: i32,
    pub flags: i32,
}

impl RecvCall {
    /// The count of bytes received; zero bytes where the call failed because
    /// receiving had been shut down; else the platform's error.
    pub fn complete(self, ret: i32, code: i32) -> (r: Result<usize, SocketError>)
        ensures
            r == transferred_spec(ret, code),
    {
        transferred(ret, code)
    }
}

/// What `recvfrom` stands for once it has returned `ret` and filled storage
/// with the family tag `family` and the bytes `data`: the count as for any
/// transfer, and with it the peer's address.
pub open spec fn received_from_spec(ret: i32, code: i32, family: u16, data: Seq<u8>) -> Result<
    (usize, SocketAddr),
    SocketError,
> {
    match transferred_spec(ret, code) {
        Ok(n) => match sockaddr_to_addr_spec(family, data) {
            Ok(peer) => Ok((n, peer)),
            Err(e) => Err(e),
        },
        Err(e) => Err(e),
    }
}

/// The native `recvfrom` call into the first `len` bytes of the buffer, with
/// zeroed storage of `fromlen` bytes for the peer's address.
#[must_use]
#[derive(Debug, PartialEq, Eq)]
pub struct RecvFromCall {
    pub socket: SOCKET,
    pub len: i32,
    pub flags: i32,
    pub fromlen: i32,
}

impl RecvFromCall {
    /// Whether the native result is one that [`Self::complete`] takes:
    /// where the address is decoded, the reported length covers the
    /// structure which the family announces.
    pub open spec fn spec_admits(ret: i32, code: i32, family: u16, len: i32) -> bool {
        transferred_spec(ret, code) is Ok ==> len_covers(family, len)
    }

    /// Tests whether the native result is one that [`Self::complete`]
    /// takes. One that it does not take shows a corrupt native result, on
    /// which the caller must stop.
    pub fn admits(&self, ret: i32, code: i32, storage: &SOCKADDR_STORAGE_LH, len: i32) -> (b:
        bool)
        ensures
            b == Self::spec_admits(ret, code, storage.ss_family, len),
    {
        (ret == SOCKET_ERROR && code != WSAESHUTDOWN) || storage.covers(len)
    }

    /// The count of bytes received and the peer's address, as the native
    /// layer wrote it into `storage`, of which it reported `len` bytes as
    /// filled. Where the call failed because receiving had been shut down,
    /// the count is zero and the address is still decoded. Any other failure
    /// gives the platform's error; an address of a family that is neither
    /// IPv4 nor IPv6 gives `InvalidInput`.
    pub fn complete(self, ret: i32, code: i32, storage: &SOCKADDR_STORAGE_LH, len: i32) -> (r:
        Result<(usize, SocketAddr), SocketError>)
        requires
            Self::spec_admits(ret, code, storage.ss_family, len),
        ensures
            r == received_from_spec(ret, code, storage.ss_family, storage.ss_data@),
            r is Ok <==> transferred_spec(ret, code) is Ok && is_inet(storage.ss_family),
            r == Err::<(usize, SocketAddr), SocketError>(SocketError::OsError(code)) <==> ret
                == SOCKET_ERROR && code != WSAESHUTDOWN,
            r == Err::<(usize, SocketAddr), SocketError>(SocketError::InvalidInput)
                <==> transferred_spec(ret, code) is Ok && !is_inet(storage.ss_family),
    {
        match transferred(ret, code) {
            Ok(n) => match sockaddr_to_addr(storage, len) {
                Ok(peer) => Ok((n, peer)),
                Err(e) => Err(e),
            },
            Err(e) => Err(e),
        }
    }
}

/// The native `send` call on the first `len` bytes of the buffer.
#[must_use]
#[derive(Debug, PartialEq, Eq)]
pub struct SendCall {
    pub socket: SOCKET,
    pub len: i32,
    pub flags: i32,
}

impl SendCall {
    /// The count of bytes sent; zero bytes where the call failed because
    /// sending had been shut down; else the platform's error.
    pub fn complete(self, ret: i32, code: i32) -> (r: Result<usize, SocketError>)
        ensures
            r == transferred_spec(ret, code),
    {
        transferred(ret, code)
    }
}

/// The native `sendto` call on the first `len` bytes of the buffer: `to`
/// holds the peer's encoded address, of which `tolen` bytes count.
#[must_use]
#[derive(Debug, PartialEq, Eq)]
pub struct SendToCall {
    pub socket: SOCKET,
    pub len: i32,
    pub flags: i32,
    pub to: SOCKADDR_STORAGE_LH,
    pub tolen: i32,
}

impl SendToCall {
    /// The count of bytes sent; zero bytes where the call failed because
    /// sending had been shut down; else the platform's error.
    pub fn complete(self, ret: i32, code: i32) -> (r: Result<usize, SocketError>)
        ensures
            r == transferred_spec(ret, code),
    {
        transferred(ret, code)
    }
}

/// The native `accept` call with zeroed storage of `addrlen` bytes for the
/// peer's address.
#[must_use]
#[derive(Debug, PartialEq, Eq)]
pub struct AcceptCall {
    pub socket: SOCKET,
    pub addrlen: i32,
}

impl AcceptCall {
    /// Whether the native result is one that [`Self::complete`] takes: after
    /// a call that succeeded, the reported length covers the structure which
    /// the family announces.
    pub open spec fn spec_admits(fd: SOCKET, family: u16, len: i32) -> bool {
        fd != INVALID_SOCKET ==> len_covers(family, len)
    }

    /// Tests whether the native result is one that [`Self::complete`]
    /// takes. One that it does not take shows a corrupt native result, on
    /// which the caller must stop.
    pub fn admits(&self, fd: SOCKET, storage: &SOCKADDR_STORAGE_LH, len: i32) -> (b: bool)
        ensures
            b == Self::spec_admits(fd, storage.ss_family, len),
    {
        fd == INVALID_SOCKET || storage.covers(len)
    }

    /// The socket of the accepted connection, which owns the fresh
    /// descriptor `fd`, and the peer's address as the native layer wrote it
    /// into `storage`, of which it reported `len` bytes as filled.
    ///
    /// Where the native layer gave no descriptor, the error is the
    /// platform's and comes alone. Where it gave one but the peer's address
    /// is of a family that is neither IPv4 nor IPv6, the error is
    /// `InvalidInput` and the socket comes with it, so that its owner can
    /// still release the descriptor.
    pub fn complete(self, fd: SOCKET, code: i32, storage: &SOCKADDR_STORAGE_LH, len: i32) -> (r:
        Result<(Socket, SocketAddr), (SocketError, Option<Socket>)>)
        requires
            Self::spec_admits(fd, storage.ss_family, len),
        ensures
            r is Ok <==> fd != INVALID_SOCKET && is_inet(storage.ss_family),
            match r {
                Ok((s, peer)) => {
                    &&& fd != INVALID_SOCKET
                    &&& s.raw() == fd
                    &&& sockaddr_to_addr_spec(storage.ss_family, storage.ss_data@) == Ok::<
                        SocketAddr,
                        SocketError,
                    >(peer)
                },
                Err((e, None)) => fd == INVALID_SOCKET && e == SocketError::OsError(code),
                Err((e, Some(s))) => {
                    &&& fd != INVALID_SOCKET
                    &&& s.raw() == fd
                    &&& e == SocketError::InvalidInput
                    &&& sockaddr_to_addr_spec(storage.ss_family, storage.ss_data@) is Err
                },
            },
    {
        match descriptor(fd, code) {
            Ok(fd) => {
                let s = Socket::from_raw_socket(fd);
                match sockaddr_to_addr(storage, len) {
                    Ok(peer) => Ok((s, peer)),
                    Err(e) => Err((e, Some(s))),
                }
            },
            Err(e) => Err((e, None)),
        }
    }
}

/// The native `connect` call: `name` holds the encoded address, of which
/// `namelen` bytes count.
#[must_use]
#[derive(Debug, PartialEq, Eq)]
pub struct ConnectCall {
    pub socket: SOCKET,
    pub name: SOCKADDR_STORAGE_LH,
    pub namelen: i32,
}

impl ConnectCall {
    /// Success where the native call returned zero, else the platform's
    /// error. On a socket in non-blocking mode that error may say that the
    /// connection is still being made.
    pub fn complete(self, ret: i32, code: i32) -> (r: Result<(), SocketError>)
        ensures
            r == status_spec(ret, code),
    {
        status(ret, code)
    }
}

/// The native `getsockopt` call: `value` is the room that the native layer
/// writes the option's value into, `optlen` its size in bytes.
#[must_use]
#[derive(Debug, PartialEq, Eq)]
pub struct GetOptCall<T> {
    pub socket: SOCKET,
    pub level: i32,
    pub name: i32,
    pub value: T,
    pub optlen: i32,
}

impl<T> GetOptCall<T> {
    /// The option's value, which is `value` as the native layer filled it,
    /// where the native call returned zero; else the platform's error.
    pub fn complete(self, ret: i32, code: i32) -> (r: Result<T, SocketError>)
        ensures
            r == if ret == 0 {
                Ok::<T, SocketError>(self.value)
            } else {
                Err::<T, SocketError>(SocketError::OsError(code))
            },
    {
        match status(ret, code) {
            Ok(()) => Ok(self.value),
            Err(e) => Err(e),
        }
    }
}

/// The native `setsockopt` call: the option's value and its size in bytes.
#[must_use]
#[derive(Debug, PartialEq, Eq)]
pub struct SetOptCall<T> {
    pub socket: SOCKET,
    pub level: i32,
    pub name: i32,
    pub value: T,
    pub optlen: i32,
}

impl<T> SetOptCall<T> {
    /// Success where the native call returned zero, else the platform's
    /// error.
    pub fn complete(self, ret: i32, code: i32) -> (r: Result<(), SocketError>)
        ensures
            r == status_spec(ret, code),
    {
        status(ret, code)
    }
}

/// The native `ioctlsocket` call; `arg` is the value that the call is given
/// a reference to.
#[must_use]
#[derive(Debug, PartialEq, Eq)]
pub struct IoctlCall {
    pub socket: SOCKET,
    pub cmd: i32,
    pub arg: u32,
}

impl IoctlCall {
    /// Success where the native call returned zero, else the platform's
    /// error.
    pub fn complete(self, ret: i32, code: i32) -> (r: Result<(), SocketError>)
        ensures
            r == status_spec(ret, code),
    {
        status(ret, code)
    }
}

/// The native `shutdown` call.
#[must_use]
#[derive(Debug, PartialEq, Eq)]
pub struct ShutdownCall {
    pub socket: SOCKET,
    pub how: i32,
}

impl ShutdownCall {
    /// Success where the native call returned zero, else the platform's
    /// error.
    pub fn complete(self, ret: i32, code: i32) -> (r: Result<(), SocketError>)
        ensures
            r == status_spec(ret, code),
    {
        status(ret, code)
    }
}

/// The native `closesocket` call.
#[must_use]
#[derive(Debug, PartialEq, Eq)]
pub struct CloseCall {
    pub socket: SOCKET,
}

impl CloseCall {
    /// Success where the native call returned zero, else the platform's
    /// error.
    pub fn complete(self, ret: i32, code: i32) -> (r: Result<(), SocketError>)
        ensures
            r == status_spec(ret, code),
    {
        status(ret, code)
    }
}

/// The native `select` call. `None` stands for the null pointer: in place of
/// a set, no set; in place of the time limit, no limit.
#[must_use]
#[derive(Debug, PartialEq, Eq)]
pub struct SelectCall {
    pub nfds: i32,
    pub readfds: Option<FD_SET>,
    pub writefds: Option<FD_SET>,
    pub exceptfds: Option<FD_SET>,
    pub timeout: Option<timeval>,
}

impl SelectCall {
    /// The number of sockets that are ready, or the platform's error where
    /// the call failed.
    pub fn complete(self, ret: i32, code: i32) -> (r: Result<i32, SocketError>)
        ensures
            r == counted_spec(ret, code),
    {
        counted(ret, code)
    }
}

} // verus!
