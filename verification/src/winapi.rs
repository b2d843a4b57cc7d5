//! The native layer's constants and data structures.
//!
//! Integer widths are those of the native ABI: `int` and `long` are 32 bits
//! wide, a descriptor is as wide as a pointer.
#![allow(non_camel_case_types)]

use vstd::prelude::*;

verus! {

/// A native socket descriptor.
pub type SOCKET = usize;

/// What the native layer returns in place of a descriptor when it fails.
pub const INVALID_SOCKET: SOCKET = usize::MAX;

/// What the native layer returns in place of a count when it fails.
pub const SOCKET_ERROR: i32 = -1;

/// The family tag of an IPv4 socket address.
pub const AF_INET: i32 = 2;

/// The family tag of an IPv6 socket address.
pub const AF_INET6: i32 = 23;

/// The error code of a transfer on a socket whose direction was shut down.
pub const WSAESHUTDOWN: i32 = 10058;

/// The number of descriptors that one descriptor set can hold.
pub const FD_SETSIZE: usize = 64;

/// Size in bytes of [`SOCKADDR_STORAGE_LH`] in memory.
pub const SOCKADDR_STORAGE_SIZE: i32 = 128;

/// Size in bytes of [`sockaddr_in`] in memory.
pub const SOCKADDR_IN_SIZE: i32 = 16;

/// Size in bytes of [`sockaddr_in6`] in memory.
pub const SOCKADDR_IN6_SIZE: i32 = 28;

/// A set of descriptors for readiness polling: the first `fd_count` entries
/// of `fd_array`.
#[derive(Clone, Copy, Debug, PartialEq, Eq)]
pub struct FD_SET {
    pub fd_count: u32,
    pub fd_array: [SOCKET; 64],
}

impl FD_SET {
    /// At most as many descriptors as the array has room for.
    pub open spec fn wf(&self) -> bool {
        self.fd_count <= FD_SETSIZE
    }
}

impl View for FD_SET {
    type V = Seq<SOCKET>;

    /// The descriptors in the set, in the order in which they were put in.
    open spec fn view(&self) -> Seq<SOCKET> {
        self.fd_array@.subrange(0, self.fd_count as int)
    }
}

/// A time span in seconds and microseconds.
#[derive(Clone, Copy, Debug, PartialEq, Eq)]
pub struct timeval {
    pub tv_sec: i32,
    pub tv_usec: i32,
}

/// Storage for a socket address of any family, as it lies in memory: the
/// family tag, which the host reads as a 16-bit integer, and the 126 bytes
/// that follow it. The byte at offset `k` of the native structure, for
/// `2 <= k < 128`, is `ss_data[k - 2]`.
#[derive(Clone, Copy, Debug, PartialEq, Eq)]
pub struct SOCKADDR_STORAGE_LH {
    pub ss_family: u16,
    pub ss_data: [u8; 126],
}

/// An IPv4 address: its four octets, first octet first.
#[derive(Clone, Copy, Debug, PartialEq, Eq)]
pub struct in_addr {
    pub s_addr: [u8; 4],
}

/// An IPv6 address: its eight 16-bit groups, first group first. In memory
/// each group lies in network byte order.
#[derive(Clone, Copy, Debug, PartialEq, Eq)]
pub struct in6_addr {
    pub s6_addr: [u16; 8],
}

/// The native IPv4 socket address, field by field. `sin_port` is the port
/// number; in memory it lies in network byte order.
#[derive(Clone, Copy, Debug, PartialEq, Eq)]
pub struct sockaddr_in {
    pub sin_family: u16,
    pub sin_port: u16,
    pub sin_addr: in_addr,
    pub sin_zero: [u8; 8],
}

/// The native IPv6 socket address, field by field. `sin6_port` is the port
/// number; in memory it lies in network byte order. `sin6_flowinfo` and
/// `sin6_scope_id` lie in memory as the platform stores a 32-bit integer,
/// least significant byte first.
#[derive(Clone, Copy, Debug, PartialEq, Eq)]
pub struct sockaddr_in6 {
    pub sin6_family: u16,
    pub sin6_port: u16,
    pub sin6_flowinfo: u32,
    pub sin6_addr: in6_addr,
    pub sin6_scope_id: u32,
}

impl SOCKADDR_STORAGE_LH {
    /// Storage with the family tag and every byte zero.
    pub fn zeroed() -> (s: SOCKADDR_STORAGE_LH)
        ensures
            s.ss_family == 0,
            forall|i: int| 0 <= i < 126 ==> s.ss_data[i] == 0,
    {
        SOCKADDR_STORAGE_LH { ss_family: 0, ss_data: [0u8; 126] }
    }

    /// Tests whether `len` bytes hold all of the structure that the family
    /// tag announces: [`len_covers`].
    pub fn covers(&self, len: i32) -> (b: bool)
        ensures
            b == len_covers(self.ss_family, len),
    {
        let family = self.ss_family as i32;
        if family == AF_INET {
            len >= SOCKADDR_IN_SIZE
        } else if family == AF_INET6 {
            len >= SOCKADDR_IN6_SIZE
        } else {
            true
        }
    }
}

/// Whether `len` bytes, counted from the start of the structure, hold all of
/// the structure that `family` announces. Of a family that is neither IPv4
/// nor IPv6 nothing is asked.
pub open spec fn len_covers(family: u16, len: i32) -> bool {
    &&& family == AF_INET ==> len >= SOCKADDR_IN_SIZE
    &&& family == AF_INET6 ==> len >= SOCKADDR_IN6_SIZE
}

} // verus!
