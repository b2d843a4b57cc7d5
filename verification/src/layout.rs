//! How the native address structures lie in memory.
//!
//! A port and the groups of an IPv6 address lie in network byte order, most
//! significant byte first, whatever the host. The flow label and the scope
//! id of an IPv6 address lie as the platform stores a 32-bit integer, least
//! significant byte first. Every value is put together and taken apart by
//! arithmetic on single bytes, so that nothing here depends on the machine
//! that runs it.

use vstd::prelude::*;
use crate::winapi::{
    SOCKADDR_IN6_SIZE, SOCKADDR_IN_SIZE, SOCKADDR_STORAGE_LH, SOCKADDR_STORAGE_SIZE, in6_addr,
    in_addr, sockaddr_in, sockaddr_in6,
};

verus! {

/// The 16-bit number whose most significant byte is `hi`.
pub open spec fn be16(hi: u8, lo: u8) -> u16 {
    (hi * 256 + lo) as u16
}

/// The most significant byte of `x`.
pub open spec fn hi8(x: u16) -> u8 {
    (x / 256) as u8
}

/// The least significant byte of `x`.
pub open spec fn lo8(x: u16) -> u8 {
    (x % 256) as u8
}

/// The 32-bit number whose least significant byte is `b0`.
pub open spec fn le32(b0: u8, b1: u8, b2: u8, b3: u8) -> u32 {
    (b0 + b1 * 0x100 + b2 * 0x1_0000 + b3 * 0x100_0000) as u32
}

/// Byte `k` of `x`, counted from the least significant.
pub open spec fn byte32(x: u32, k: int) -> u8 {
    if k == 0 {
        (x % 0x100) as u8
    } else if k == 1 {
        (x / 0x100 % 0x100) as u8
    } else if k == 2 {
        (x / 0x1_0000 % 0x100) as u8
    } else {
        (x / 0x100_0000) as u8
    }
}

/// Puts a 16-bit number together from its bytes in network order.
pub fn u16_from_be(hi: u8, lo: u8) -> (x: u16)
    ensures
        x == be16(hi, lo),
        hi8(x) == hi,
        lo8(x) == lo,
{
    (hi as u16) * 256 + (lo as u16)
}

/// Takes a 16-bit number apart into its bytes in network order.
pub fn u16_to_be(x: u16) -> (b: [u8; 2])
    ensures
        b[0] == hi8(x),
        b[1] == lo8(x),
        be16(b[0], b[1]) == x,
{
    [(x / 256) as u8, (x % 256) as u8]
}

/// Puts a 32-bit number together from its bytes, least significant first.
pub fn u32_from_le(b0: u8, b1: u8, b2: u8, b3: u8) -> (x: u32)
    ensures
        x == le32(b0, b1, b2, b3),
        byte32(x, 0) == b0,
        byte32(x, 1) == b1,
        byte32(x, 2) == b2,
        byte32(x, 3) == b3,
{
    (b0 as u32) + (b1 as u32) * 0x100 + (b2 as u32) * 0x1_0000 + (b3 as u32) * 0x100_0000
}

/// A 32-bit number is the sum of its four bytes, each at its place.
pub proof fn lemma_u32_is_sum_of_bytes(x: u32)
    ensures
        le32(byte32(x, 0), byte32(x, 1), byte32(x, 2), byte32(x, 3)) == x,
{
    assert(x == (x % 0x100) + (x / 0x100 % 0x100) * 0x100 + (x / 0x1_0000 % 0x100) * 0x1_0000 + (x
        / 0x100_0000) * 0x100_0000) by (bit_vector);
}

/// Takes a 32-bit number apart into its bytes, least significant first.
pub fn u32_to_le(x: u32) -> (b: [u8; 4])
    ensures
        forall|k: int| 0 <= k < 4 ==> b[k] == byte32(x, k),
        le32(b[0], b[1], b[2], b[3]) == x,
{
    proof {
        lemma_u32_is_sum_of_bytes(x);
    }
    [
        (x % 0x100) as u8,
        (x / 0x100 % 0x100) as u8,
        (x / 0x1_0000 % 0x100) as u8,
        (x / 0x100_0000) as u8,
    ]
}

/// `bytes`, then zero bytes up to the 126 that storage holds behind its
/// family tag.
pub open spec fn padded(bytes: Seq<u8>) -> Seq<u8> {
    Seq::new(126, |i: int| if i < bytes.len() { bytes[i] } else { 0u8 })
}

impl sockaddr_in {
    /// The 14 bytes that follow the family tag in memory: the port in
    /// network order, the four octets, the padding.
    pub open spec fn spec_bytes(self) -> Seq<u8> {
        seq![
            hi8(self.sin_port),
            lo8(self.sin_port),
            self.sin_addr.s_addr[0],
            self.sin_addr.s_addr[1],
            self.sin_addr.s_addr[2],
            self.sin_addr.s_addr[3],
        ] + self.sin_zero@
    }

    /// The structure that lies in `data` behind the family tag `family`.
    pub open spec fn spec_read(family: u16, data: Seq<u8>) -> sockaddr_in {
        sockaddr_in {
            sin_family: family,
            sin_port: be16(data[0], data[1]),
            sin_addr: in_addr { s_addr: [data[2], data[3], data[4], data[5]] },
            sin_zero: [
                data[6],
                data[7],
                data[8],
                data[9],
                data[10],
                data[11],
                data[12],
                data[13],
            ],
        }
    }

    /// Reads the storage as an IPv4 socket address, whatever its family tag.
    pub fn read(storage: &SOCKADDR_STORAGE_LH) -> (s: sockaddr_in)
        ensures
            s == Self::spec_read(storage.ss_family, storage.ss_data@),
    {
        let d = &storage.ss_data;
        sockaddr_in {
            sin_family: storage.ss_family,
            sin_port: u16_from_be(d[0], d[1]),
            sin_addr: in_addr { s_addr: [d[2], d[3], d[4], d[5]] },
            sin_zero: [d[6], d[7], d[8], d[9], d[10], d[11], d[12], d[13]],
        }
    }

    /// Lays the structure out in storage; what lies behind it is zero.
    pub fn write(&self) -> (storage: SOCKADDR_STORAGE_LH)
        ensures
            storage.ss_family == self.sin_family,
            storage.ss_data@ == padded(self.spec_bytes()),
    {
        let port = u16_to_be(self.sin_port);
        let mut data = [0u8; 126];
        data[0] = port[0];
        data[1] = port[1];
        data[2] = self.sin_addr.s_addr[0];
        data[3] = self.sin_addr.s_addr[1];
        data[4] = self.sin_addr.s_addr[2];
        data[5] = self.sin_addr.s_addr[3];
        data[6] = self.sin_zero[0];
        data[7] = self.sin_zero[1];
        data[8] = self.sin_zero[2];
        data[9] = self.sin_zero[3];
        data[10] = self.sin_zero[4];
        data[11] = self.sin_zero[5];
        data[12] = self.sin_zero[6];
        data[13] = self.sin_zero[7];
        SOCKADDR_STORAGE_LH { ss_family: self.sin_family, ss_data: data }
    }
}

impl sockaddr_in6 {
    /// The 26 bytes that follow the family tag in memory: the port in
    /// network order, the flow label, the eight groups in network order,
    /// the scope id.
    pub open spec fn spec_bytes(self) -> Seq<u8> {
        seq![
            hi8(self.sin6_port),
            lo8(self.sin6_port),
            byte32(self.sin6_flowinfo, 0),
            byte32(self.sin6_flowinfo, 1),
            byte32(self.sin6_flowinfo, 2),
            byte32(self.sin6_flowinfo, 3),
            hi8(self.sin6_addr.s6_addr[0]),
            lo8(self.sin6_addr.s6_addr[0]),
            hi8(self.sin6_addr.s6_addr[1]),
            lo8(self.sin6_addr.s6_addr[1]),
            hi8(self.sin6_addr.s6_addr[2]),
            lo8(self.sin6_addr.s6_addr[2]),
            hi8(self.sin6_addr.s6_addr[3]),
            lo8(self.sin6_addr.s6_addr[3]),
            hi8(self.sin6_addr.s6_addr[4]),
            lo8(self.sin6_addr.s6_addr[4]),
            hi8(self.sin6_addr.s6_addr[5]),
            lo8(self.sin6_addr.s6_addr[5]),
            hi8(self.sin6_addr.s6_addr[6]),
            lo8(self.sin6_addr.s6_addr[6]),
            hi8(self.sin6_addr.s6_addr[7]),
            lo8(self.sin6_addr.s6_addr[7]),
            byte32(self.sin6_scope_id, 0),
            byte32(self.sin6_scope_id, 1),
            byte32(self.sin6_scope_id, 2),
            byte32(self.sin6_scope_id, 3),
        ]
    }

    /// The structure that lies in `data` behind the family tag `family`.
    pub open spec fn spec_read(family: u16, data: Seq<u8>) -> sockaddr_in6 {
        sockaddr_in6 {
            sin6_family: family,
            sin6_port: be16(data[0], data[1]),
            sin6_flowinfo: le32(data[2], data[3], data[4], data[5]),
            sin6_addr: in6_addr {
                s6_addr: [
                    be16(data[6], data[7]),
                    be16(data[8], data[9]),
                    be16(data[10], data[11]),
                    be16(data[12], data[13]),
                    be16(data[14], data[15]),
                    be16(data[16], data[17]),
                    be16(data[18], data[19]),
                    be16(data[20], data[21]),
                ],
            },
            sin6_scope_id: le32(data[22], data[23], data[24], data[25]),
        }
    }

    /// Reads the storage as an IPv6 socket address, whatever its family tag.
    pub fn read(storage: &SOCKADDR_STORAGE_LH) -> (s: sockaddr_in6)
        ensures
            s == Self::spec_read(storage.ss_family, storage.ss_data@),
    {
        let d = &storage.ss_data;
        sockaddr_in6 {
            sin6_family: storage.ss_family,
            sin6_port: u16_from_be(d[0], d[1]),
            sin6_flowinfo: u32_from_le(d[2], d[3], d[4], d[5]),
            sin6_addr: in6_addr {
                s6_addr: [
                    u16_from_be(d[6], d[7]),
                    u16_from_be(d[8], d[9]),
                    u16_from_be(d[10], d[11]),
                    u16_from_be(d[12], d[13]),
                    u16_from_be(d[14], d[15]),
                    u16_from_be(d[16], d[17]),
                    u16_from_be(d[18], d[19]),
                    u16_from_be(d[20], d[21]),
                ],
            },
            sin6_scope_id: u32_from_le(d[22], d[23], d[24], d[25]),
        }
    }

    /// Lays the structure out in storage; what lies behind it is zero.
    pub fn write(&self) -> (storage: SOCKADDR_STORAGE_LH)
        ensures
            storage.ss_family == self.sin6_family,
            storage.ss_data@ == padded(self.spec_bytes()),
    {
        let port = u16_to_be(self.sin6_port);
        let flow = u32_to_le(self.sin6_flowinfo);
        let scope = u32_to_le(self.sin6_scope_id);
        let mut data = [0u8; 126];
        data[0] = port[0];
        data[1] = port[1];
        data[2] = flow[0];
        data[3] = flow[1];
        data[4] = flow[2];
        data[5] = flow[3];
        let mut g: usize = 0;
        while g < 8
            invariant
                g <= 8,
                data[0] == hi8(self.sin6_port),
                data[1] == lo8(self.sin6_port),
                forall|k: int| 0 <= k < 4 ==> data[2 + k] == byte32(self.sin6_flowinfo, k),
                forall|j: int|
                    0 <= j < g ==> data[6 + 2 * j] == hi8(#[trigger] self.sin6_addr.s6_addr[j])
                        && data[7 + 2 * j] == lo8(self.sin6_addr.s6_addr[j]),
                forall|i: int| 6 + 2 * g <= i < 126 ==> data[i] == 0,
            decreases 8 - g,
        {
            let pair = u16_to_be(self.sin6_addr.s6_addr[g]);
            data[6 + 2 * g] = pair[0];
            data[7 + 2 * g] = pair[1];
            g = g + 1;
        }
        data[22] = scope[0];
        data[23] = scope[1];
        data[24] = scope[2];
        data[25] = scope[3];
        SOCKADDR_STORAGE_LH { ss_family: self.sin6_family, ss_data: data }
    }
}

/// The sizes of the native structures are those of their layouts: the two
/// bytes of the family tag and the bytes that follow it. Storage has room
/// for either structure.
pub proof fn lemma_layout_sizes(v4: sockaddr_in, v6: sockaddr_in6)
    ensures
        2 + v4.spec_bytes().len() == SOCKADDR_IN_SIZE,
        2 + v6.spec_bytes().len() == SOCKADDR_IN6_SIZE,
        2 + padded(v4.spec_bytes()).len() == SOCKADDR_STORAGE_SIZE,
        2 + padded(v6.spec_bytes()).len() == SOCKADDR_STORAGE_SIZE,
        SOCKADDR_IN_SIZE <= SOCKADDR_IN6_SIZE <= SOCKADDR_STORAGE_SIZE,
{
}

/// Reading what was written gives the IPv4 structure back.
pub proof fn lemma_read_write_in(s: sockaddr_in)
    ensures
        sockaddr_in::spec_read(s.sin_family, padded(s.spec_bytes())) == s,
{
    let t = sockaddr_in::spec_read(s.sin_family, padded(s.spec_bytes()));
    assert(t.sin_addr.s_addr =~= s.sin_addr.s_addr);
    assert(t.sin_zero =~= s.sin_zero);
}

/// Reading what was written gives the IPv6 structure back.
pub proof fn lemma_read_write_in6(s: sockaddr_in6)
    ensures
        sockaddr_in6::spec_read(s.sin6_family, padded(s.spec_bytes())) == s,
{
    let t = sockaddr_in6::spec_read(s.sin6_family, padded(s.spec_bytes()));
    lemma_u32_is_sum_of_bytes(s.sin6_flowinfo);
    lemma_u32_is_sum_of_bytes(s.sin6_scope_id);
    assert(t.sin6_addr.s6_addr =~= s.sin6_addr.s6_addr);
}

} // verus!
