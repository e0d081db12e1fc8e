//! GTP-U message types (TS 29.281 6.1).

use vstd::prelude::*;

verus! {

pub const ECHO_REQUEST: u8 = 1;

pub const ECHO_RESPONSE: u8 = 2;

pub const ERROR_INDICATION: u8 = 26;

pub const END_MARKER: u8 = 254;

pub const GPDU: u8 = 255;

} // verus!
