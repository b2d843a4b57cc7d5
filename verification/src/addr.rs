//! Portable socket addresses, and the codec between them and native storage.

use vstd::prelude::*;
use crate::error::SocketError;
use crate::layout::{lemma_read_write_in, lemma_read_write_in6, padded};
use crate::winapi::{
    AF_INET, AF_INET6, SOCKADDR_IN6_SIZE, SOCKADDR_IN_SIZE, SOCKADDR_STORAGE_LH, in6_addr,
    in_addr, len_covers, sockaddr_in, sockaddr_in6,
};

verus! {

/// An IPv4 endpoint: four octets and a port.
#[derive(Clone, Copy, Debug, PartialEq, Eq)]
pub struct SocketAddrV4 {
    pub ip: [u8; 4],
    pub port: u16,
}

/// An IPv6 endpoint: eight 16-bit groups, a port, the flow label and the
/// scope id.
#[derive(Clone, Copy, Debug, PartialEq, Eq)]
pub struct SocketAddrV6 {
    pub ip: [u16; 8],
    pub port: u16,
    pub flowinfo: u32,
    pub scope_id: u32,
}

/// An endpoint of either family.
#[derive(Clone, Copy, Debug, PartialEq, Eq)]
pub enum SocketAddr {
    V4(SocketAddrV4),
    V6(SocketAddrV6),
}

impl sockaddr_in {
    /// The native structure of an IPv4 endpoint; its padding is zero.
    pub open spec fn spec_from_addr(a: SocketAddrV4) -> sockaddr_in {
        sockaddr_in {
            sin_family: AF_INET as u16,
            sin_port: a.port,
            sin_addr: in_addr { s_addr: a.ip },
            sin_zero: [0u8, 0u8, 0u8, 0u8, 0u8, 0u8, 0u8, 0u8],
        }
    }

    /// The endpoint that the structure names.
    pub open spec fn spec_to_addr(self) -> SocketAddrV4 {
        SocketAddrV4 { ip: self.sin_addr.s_addr, port: self.sin_port }
    }

    /// Builds the native structure of an IPv4 endpoint.
    pub fn from_addr(a: &SocketAddrV4) -> (s: sockaddr_in)
        ensures
            s == Self::spec_from_addr(*a),
    {
        let s = sockaddr_in {
            sin_family: AF_INET as u16,
            sin_port: a.port,
            sin_addr: in_addr { s_addr: a.ip },
            sin_zero: [0u8; 8],
        };
        assert(s.sin_zero =~= Self::spec_from_addr(*a).sin_zero);
        s
    }

    /// Gives the endpoint that the structure names.
    pub fn to_addr(&self) -> (a: SocketAddrV4)
        ensures
            a == self.spec_to_addr(),
    {
        SocketAddrV4 { ip: self.sin_addr.s_addr, port: self.sin_port }
    }
}

impl sockaddr_in6 {
    /// The native structure of an IPv6 endpoint.
    pub open spec fn spec_from_addr(a: SocketAddrV6) -> sockaddr_in6 {
        sockaddr_in6 {
            sin6_family: AF_INET6 as u16,
            sin6_port: a.port,
            sin6_flowinfo: a.flowinfo,
            sin6_addr: in6_addr { s6_addr: a.ip },
            sin6_scope_id: a.scope_id,
        }
    }

    /// The endpoint that the structure names.
    pub open spec fn spec_to_addr(self) -> SocketAddrV6 {
        SocketAddrV6 {
            ip: self.sin6_addr.s6_addr,
            port: self.sin6_port,
            flowinfo: self.sin6_flowinfo,
            scope_id: self.sin6_scope_id,
        }
    }

    /// Builds the native structure of an IPv6 endpoint.
    pub fn from_addr(a: &SocketAddrV6) -> (s: sockaddr_in6)
        ensures
            s == Self::spec_from_addr(*a),
    {
        sockaddr_in6 {
            sin6_family: AF_INET6 as u16,
            sin6_port: a.port,
            sin6_flowinfo: a.flowinfo,
            sin6_addr: in6_addr { s6_addr: a.ip },
            sin6_scope_id: a.scope_id,
        }
    }

    /// Gives the endpoint that the structure names.
    pub fn to_addr(&self) -> (a: SocketAddrV6)
        ensures
            a == self.spec_to_addr(),
    {
        SocketAddrV6 {
            ip: self.sin6_addr.s6_addr,
            port: self.sin6_port,
            flowinfo: self.sin6_flowinfo,
            scope_id: self.sin6_scope_id,
        }
    }
}

impl SocketAddr {
    /// The family tag of the endpoint's native structure.
    pub open spec fn native_family(self) -> u16 {
        match self {
            SocketAddr::V4(_) => AF_INET as u16,
            SocketAddr::V6(_) => AF_INET6 as u16,
        }
    }

    /// The 126 bytes that follow the family tag when the endpoint's native
    /// structure lies at the start of otherwise zero storage.
    pub open spec fn native_bytes(self) -> Seq<u8> {
        match self {
            SocketAddr::V4(a) => padded(sockaddr_in::spec_from_addr(a).spec_bytes()),
            SocketAddr::V6(a) => padded(sockaddr_in6::spec_from_addr(a).spec_bytes()),
        }
    }

    /// The size in bytes of the endpoint's native structure.
    pub open spec fn native_len(self) -> i32 {
        match self {
            SocketAddr::V4(_) => SOCKADDR_IN_SIZE,
            SocketAddr::V6(_) => SOCKADDR_IN6_SIZE,
        }
    }
}

/// Encodes an endpoint: the storage that holds its native structure, and
/// the structure's size. The IPv4 or the IPv6 layout is taken as the
/// endpoint's variant says.
pub fn get_raw_addr(addr: &SocketAddr) -> (r: (SOCKADDR_STORAGE_LH, i32))
    ensures
        r.0.ss_family == addr.native_family(),
        r.0.ss_data@ == addr.native_bytes(),
        r.1 == addr.native_len(),
        len_covers(r.0.ss_family, r.1),
        sockaddr_to_addr_spec(r.0.ss_family, r.0.ss_data@) == Ok::<SocketAddr, SocketError>(*addr),
{
    proof {
        lemma_decode_encode(*addr);
    }
    match addr {
        SocketAddr::V4(a) => (sockaddr_in::from_addr(a).write(), SOCKADDR_IN_SIZE),
        SocketAddr::V6(a) => (sockaddr_in6::from_addr(a).write(), SOCKADDR_IN6_SIZE),
    }
}

/// Whether `family` is one of the two families that have an endpoint: IPv4
/// and IPv6.
pub open spec fn is_inet(family: u16) -> bool {
    family == AF_INET || family == AF_INET6
}

/// The endpoint that storage with the family tag `family` and the bytes
/// `data` names: by the IPv4 layout for `AF_INET`, by the IPv6 layout for
/// `AF_INET6`; any other family is an error.
pub open spec fn sockaddr_to_addr_spec(family: u16, data: Seq<u8>) -> Result<
    SocketAddr,
    SocketError,
> {
    if family == AF_INET {
        Ok(SocketAddr::V4(sockaddr_in::spec_read(family, data).spec_to_addr()))
    } else if family == AF_INET6 {
        Ok(SocketAddr::V6(sockaddr_in6::spec_read(family, data).spec_to_addr()))
    } else {
        Err(SocketError::InvalidInput)
    }
}

/// Decodes native storage of which the native layer reported `len` bytes as
/// filled.
///
/// A reported length that does not cover the structure which the family tag
/// announces is no input of this function: it shows a corrupt native result,
/// and the caller must stop on it.
#[allow(unused_variables)]
pub fn sockaddr_to_addr(storage: &SOCKADDR_STORAGE_LH, len: i32) -> (r: Result<
    SocketAddr,
    SocketError,
>)
    requires
        len_covers(storage.ss_family, len),
    ensures
        r == sockaddr_to_addr_spec(storage.ss_family, storage.ss_data@),
        r is Ok <==> is_inet(storage.ss_family),
        r == Err::<SocketAddr, SocketError>(SocketError::InvalidInput) <==> !is_inet(
            storage.ss_family,
        ),
{
    let family = storage.ss_family as i32;
    if family == AF_INET {
        Ok(SocketAddr::V4(sockaddr_in::read(storage).to_addr()))
    } else if family == AF_INET6 {
        Ok(SocketAddr::V6(sockaddr_in6::read(storage).to_addr()))
    } else {
        Err(SocketError::InvalidInput)
    }
}

/// Decoding what an endpoint encodes to gives the endpoint back, port, flow
/// label and scope id included, and the encoded length covers the encoded
/// structure.
pub proof fn lemma_decode_encode(a: SocketAddr)
    ensures
        sockaddr_to_addr_spec(a.native_family(), a.native_bytes()) == Ok::<SocketAddr, SocketError>(
            a,
        ),
        len_covers(a.native_family(), a.native_len()),
{
    match a {
        SocketAddr::V4(v) => {
            lemma_read_write_in(sockaddr_in::spec_from_addr(v));
        },
        SocketAddr::V6(v) => {
            lemma_read_write_in6(sockaddr_in6::spec_from_addr(v));
        },
    }
}

/// Two endpoints that encode to the same family tag and the same bytes are
/// one endpoint.
pub proof fn lemma_encode_is_injective(a: SocketAddr, b: SocketAddr)
    requires
        a.native_family() == b.native_family(),
        a.native_bytes() == b.native_bytes(),
    ensures
        a == b,
{
    lemma_decode_encode(a);
    lemma_decode_encode(b);
}

/// Decoding looks at no byte behind the reported length: two storages with
/// the same family tag that agree in the bytes which the length covers name
/// the same endpoint, or both none. (Storage holds the byte at offset `k` of
/// the native structure at index `k - 2`.)
pub proof fn lemma_decode_reads_reported_bytes_only(
    family: u16,
    len: i32,
    data: Seq<u8>,
    other: Seq<u8>,
)
    requires
        len_covers(family, len),
        forall|i: int| 0 <= i < len - 2 ==> data[i] == other[i],
    ensures
        sockaddr_to_addr_spec(family, data) == sockaddr_to_addr_spec(family, other),
{
}

/// Storage whose family is neither IPv4 nor IPv6 names no endpoint.
pub proof fn lemma_unknown_family_is_invalid(family: u16, data: Seq<u8>)
    requires
        !is_inet(family),
    ensures
        sockaddr_to_addr_spec(family, data) == Err::<SocketAddr, SocketError>(
            SocketError::InvalidInput,
        ),
{
}

} // verus!
