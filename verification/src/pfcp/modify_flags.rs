//! Modification flags of a session modification request.

use vstd::prelude::*;

verus! {

pub const CREATE: u64 = 0x1;
pub const REMOVE: u64 = 0x2;
pub const ACTIVATE: u64 = 0x4;
pub const DEACTIVATE: u64 = 0x8;
pub const DL_ONLY: u64 = 0x10;
pub const UL_ONLY: u64 = 0x20;
pub const INDIRECT: u64 = 0x40;
pub const END_MARKER: u64 = 0x80;
pub const TFT_NEW: u64 = 0x100;
pub const TFT_ADD: u64 = 0x200;
pub const TFT_REPLACE: u64 = 0x400;
pub const TFT_DELETE: u64 = 0x800;
pub const EPC_TFT_UPDATE: u64 = 0x1000;
pub const OUTER_HEADER_REMOVAL: u64 = 0x2000;
pub const QOS_MODIFY: u64 = 0x4000;
pub const EPC_QOS_UPDATE: u64 = 0x8000;
pub const URR_MEAS_METHOD: u64 = 0x10000;
pub const URR_REPORT_TRIGGER: u64 = 0x20000;
pub const URR_VOLUME_THRESH: u64 = 0x40000;
pub const URR_VOLUME_QUOTA: u64 = 0x80000;
pub const URR_TIME_THRESH: u64 = 0x100000;
pub const URR_TIME_QUOTA: u64 = 0x200000;
pub const URR_QUOTA_VALIDITY_TIME: u64 = 0x400000;
pub const SESSION: u64 = 0x800000;
pub const ERROR_INDICATION: u64 = 0x1000000;
pub const HOME_ROUTED_ROAMING: u64 = 0x2000000;
pub const XN_HANDOVER: u64 = 0x4000000;
pub const N2_HANDOVER: u64 = 0x8000000;
pub const FROM_ACTIVATING: u64 = 0x10000000;
pub const RESTORATION_INDICATION: u64 = 0x20000000;

} // verus!
