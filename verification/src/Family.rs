//! Socket address families.

use vstd::prelude::*;

verus! {

pub const UNSPECIFIED: i32 = 0;

pub const IPV4: i32 = 2;

pub const IPV6: i32 = 23;

pub const IRDA: i32 = 26;

pub const BTH: i32 = 32;

} // verus!
