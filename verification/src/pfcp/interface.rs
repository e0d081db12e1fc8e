//! Source and destination interface values (TS 29.244 8.2.2).

use vstd::prelude::*;

verus! {

pub const ACCESS: u8 = 0;
pub const CORE: u8 = 1;
pub const SGI_LAN_N6_LAN: u8 = 2;
pub const CP_FUNCTION: u8 = 3;
pub const LI_FUNCTION: u8 = 4;
pub const N6_LAN: u8 = 5;

} // verus!
