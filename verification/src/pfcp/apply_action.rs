//! Apply Action flags of a FAR (TS 29.244 8.2.26).

use vstd::prelude::*;

verus! {

pub const DROP: u16 = 0x1;
pub const FORW: u16 = 0x2;
pub const BUFF: u16 = 0x4;
pub const NOCP: u16 = 0x8;
pub const DUPL: u16 = 0x10;
pub const IPMA: u16 = 0x20;
pub const IPMD: u16 = 0x40;
pub const DFRT: u16 = 0x80;
pub const EDRT: u16 = 0x100;
pub const BDPN: u16 = 0x200;
pub const DDPN: u16 = 0x400;

} // verus!
