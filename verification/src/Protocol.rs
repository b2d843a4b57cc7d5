//! Socket protocols.

use vstd::prelude::*;

verus! {

pub const NONE: i32 = 0;

pub const ICMP: i32 = 1;

pub const TCP: i32 = 6;

pub const UDP: i32 = 17;

pub const ICMPV6: i32 = 58;

} // verus!
