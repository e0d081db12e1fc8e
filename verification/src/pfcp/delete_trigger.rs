//! Triggers of a PFCP session deletion.

use vstd::prelude::*;

verus! {

pub const LOCAL_INITIATED: i32 = 1;
pub const UE_REQUESTED: i32 = 2;
pub const AMF_UPDATE_SM_CONTEXT: i32 = 3;
pub const AMF_RELEASE_SM_CONTEXT: i32 = 4;
pub const PCF_INITIATED: i32 = 5;

} // verus!
