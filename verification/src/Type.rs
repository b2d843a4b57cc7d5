//! Socket types.

use vstd::prelude::*;

verus! {

pub const STREAM: i32 = 1;

pub const DATAGRAM: i32 = 2;

pub const RAW: i32 = 3;

pub const RDM: i32 = 4;

pub const SEQPACKET: i32 = 5;

} // verus!
