//! PFCPSMReq-Flags bit values (TS 29.244 8.2.50).

use vstd::prelude::*;

verus! {

/// DROBU — drop buffered packets
pub const DROBU: u8 = 0x01;
/// SNDEM — send End Marker packets
pub const SNDEM: u8 = 0x02;
/// QAURR — query all URRs
pub const QAURR: u8 = 0x04;

} // verus!
