//! Registry of IPv6 "next header" protocol numbers: the one-byte constants
//! carried in the fixed header's `next_header` field to name the header or
//! protocol that follows.

use vstd::prelude::*;

verus! {

pub const HOP_OPTS: u8 = 0;
pub const TCP: u8 = 6;
pub const UDP: u8 = 17;
pub const IP6: u8 = 41;
pub const ROUTING: u8 = 43;
pub const FRAGMENT: u8 = 44;
pub const ICMP: u8 = 58;
pub const NO_NEXT: u8 = 59;
pub const DST_OPTS: u8 = 60;
pub const MOBILITY: u8 = 135;

} // verus!
