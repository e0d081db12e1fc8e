//! Usage reporting rules on the data plane (TS 29.244 5.2.2): volume and
//! time thresholds that ask for a report, quotas that stop the traffic,
//! and the UR-SEQN of the reports. Times are whole seconds on the data
//! plane's monotonic clock, given by the caller.

use vstd::prelude::*;

verus! {

/// A usage reporting rule with its counters.
#[derive(Debug, Clone, Copy)]
pub struct DataPlaneUrr {
    pub urr_id: u32,
    pub volume_threshold_total: Option<u64>,
    pub volume_threshold_ul: Option<u64>,
    pub volume_threshold_dl: Option<u64>,
    pub volume_quota_total: Option<u64>,
    pub volume_quota_ul: Option<u64>,
    pub volume_quota_dl: Option<u64>,
    pub time_threshold_secs: Option<u32>,
    pub time_quota_secs: Option<u32>,
    /// Whether the PERIO reporting trigger was provisioned
    pub trigger_periodic: bool,
    pub measurement_period_secs: Option<u32>,
    /// Octets and packets since the last report
    pub acc_total_bytes: u64,
    pub acc_ul_bytes: u64,
    pub acc_dl_bytes: u64,
    pub acc_total_pkts: u64,
    pub acc_ul_pkts: u64,
    pub acc_dl_pkts: u64,
    /// When the first packet since the last report was seen
    pub first_pkt_time: Option<u64>,
    /// When the last report was made
    pub last_report_time: Option<u64>,
    /// A threshold was reached: a report is due
    pub threshold_exceeded: bool,
    /// A quota was used up: traffic is stopped until the counters reset
    pub quota_exhausted: bool,
    /// The UR-SEQN of the next report (TS 29.244 8.2.60)
    pub ur_seqn: u32,
}

/// Whether a counter has reached a limit, when one is set.
pub open spec fn reached(count: int, limit: Option<u64>) -> bool {
    match limit {
        Some(l) => count >= l,
        None => false,
    }
}

/// Whether `secs` seconds have passed since `since`, when both are known.
pub open spec fn elapsed_reached(now: u64, since: Option<u64>, secs: Option<u32>) -> bool {
    match (since, secs) {
        (Some(s), Some(t)) => (if now >= s { now - s } else { 0 }) >= t,
        _ => false,
    }
}

/// A counter plus one, wrapping as the counter does.
pub open spec fn bump(c: u64) -> u64 {
    if c == 0xFFFF_FFFF_FFFF_FFFF {
        0
    } else {
        (c + 1) as u64
    }
}

/// Whether the counters can take `bytes` more octets.
pub open spec fn record_fits(o: DataPlaneUrr, bytes: u64, is_uplink: bool) -> bool {
    !o.quota_exhausted ==> {
        &&& o.acc_total_bytes + bytes <= 0xFFFF_FFFF_FFFF_FFFF
        &&& (if is_uplink { o.acc_ul_bytes } else { o.acc_dl_bytes }) + bytes <= 0xFFFF_FFFF_FFFF_FFFF
    }
}

/// The octets counted in the packet's direction once it is counted.
pub open spec fn dir_count(o: DataPlaneUrr, bytes: u64, is_uplink: bool) -> int {
    if is_uplink {
        o.acc_ul_bytes + bytes
    } else {
        o.acc_dl_bytes + bytes
    }
}

/// Whether the packet's direction reaches its volume quota.
pub open spec fn dir_quota_reached(o: DataPlaneUrr, bytes: u64, is_uplink: bool) -> bool {
    reached(dir_count(o, bytes, is_uplink), if is_uplink { o.volume_quota_ul } else { o.volume_quota_dl })
}

/// Whether a packet is refused: the quota was already used up, or this
/// packet reaches the volume quota of its direction, the total volume quota
/// or the time quota.
pub open spec fn refuses(o: DataPlaneUrr, bytes: u64, is_uplink: bool, now: u64) -> bool {
    ||| o.quota_exhausted
    ||| dir_quota_reached(o, bytes, is_uplink)
    ||| reached(o.acc_total_bytes + bytes, o.volume_quota_total)
    ||| elapsed_reached(now, o.last_report_time, o.time_quota_secs)
}

/// The URR once a packet is counted (see `DataPlaneUrr::record`).
pub open spec fn recorded(o: DataPlaneUrr, bytes: u64, is_uplink: bool, now: u64) -> DataPlaneUrr {
    if o.quota_exhausted {
        o
    } else {
        let total = o.acc_total_bytes + bytes;
        let dir_quota = dir_quota_reached(o, bytes, is_uplink);
        let dir_threshold = reached(
            dir_count(o, bytes, is_uplink),
            if is_uplink { o.volume_threshold_ul } else { o.volume_threshold_dl },
        );
        let total_quota = reached(total, o.volume_quota_total);
        let total_threshold = reached(total, o.volume_threshold_total);
        let time_threshold = elapsed_reached(now, o.last_report_time, o.time_threshold_secs);
        DataPlaneUrr {
            acc_total_bytes: total as u64,
            acc_total_pkts: bump(o.acc_total_pkts),
            acc_ul_bytes: if is_uplink { (o.acc_ul_bytes + bytes) as u64 } else { o.acc_ul_bytes },
            acc_ul_pkts: if is_uplink { bump(o.acc_ul_pkts) } else { o.acc_ul_pkts },
            acc_dl_bytes: if is_uplink { o.acc_dl_bytes } else { (o.acc_dl_bytes + bytes) as u64 },
            acc_dl_pkts: if is_uplink { o.acc_dl_pkts } else { bump(o.acc_dl_pkts) },
            quota_exhausted: refuses(o, bytes, is_uplink, now),
            threshold_exceeded: o.threshold_exceeded || dir_threshold || (!dir_quota && (total_threshold || (
            !total_quota && time_threshold))),
            first_pkt_time: if dir_quota || o.first_pkt_time is Some {
                o.first_pkt_time
            } else {
                Some(now)
            },
            ..o
        }
    }
}

impl DataPlaneUrr {
    /// A URR with no limit, no trigger and zeroed counters, whose last
    /// report is taken to be now.
    pub fn new(urr_id: u32, now_secs: u64) -> (u: Self)
        ensures
            u.urr_id == urr_id,
            u.volume_threshold_total is None && u.volume_threshold_ul is None && u.volume_threshold_dl is None,
            u.volume_quota_total is None && u.volume_quota_ul is None && u.volume_quota_dl is None,
            u.time_threshold_secs is None && u.time_quota_secs is None,
            !u.trigger_periodic,
            u.measurement_period_secs is None,
            u.acc_total_bytes == 0 && u.acc_ul_bytes == 0 && u.acc_dl_bytes == 0,
            u.acc_total_pkts == 0 && u.acc_ul_pkts == 0 && u.acc_dl_pkts == 0,
            u.first_pkt_time is None,
            u.last_report_time == Some(now_secs),
            !u.threshold_exceeded && !u.quota_exhausted,
            u.ur_seqn == 0,
    {
        DataPlaneUrr {
            urr_id,
            volume_threshold_total: None,
            volume_threshold_ul: None,
            volume_threshold_dl: None,
            volume_quota_total: None,
            volume_quota_ul: None,
            volume_quota_dl: None,
            time_threshold_secs: None,
            time_quota_secs: None,
            trigger_periodic: false,
            measurement_period_secs: None,
            acc_total_bytes: 0,
            acc_ul_bytes: 0,
            acc_dl_bytes: 0,
            acc_total_pkts: 0,
            acc_ul_pkts: 0,
            acc_dl_pkts: 0,
            first_pkt_time: None,
            last_report_time: Some(now_secs),
            threshold_exceeded: false,
            quota_exhausted: false,
            ur_seqn: 0,
        }
    }

    /// Takes the UR-SEQN for a report: the current one, and the next one
    /// after it (wrapping).
    pub fn next_ur_seqn(&mut self) -> (s: u32)
        ensures
            s == old(self).ur_seqn,
            final(self).ur_seqn == (if old(self).ur_seqn == 0xFFFF_FFFF { 0 } else { (old(self).ur_seqn + 1) as u32 }),
            *final(self) == (DataPlaneUrr { ur_seqn: final(self).ur_seqn, ..*old(self) }),
    {
        let s = self.ur_seqn;
        self.ur_seqn = self.ur_seqn.wrapping_add(1);
        s
    }

    /// Counts a packet of `bytes` octets seen at `now_secs` and checks the
    /// limits. With the quota already used up the packet is refused and
    /// nothing changes. Otherwise the counters grow; a threshold reached
    /// marks a report due; a quota reached (the packet's direction first,
    /// then the total, then the time quota) marks the quota used up and
    /// refuses the packet. Returns whether the packet is refused.
    pub fn record(&mut self, bytes: u64, is_uplink: bool, now_secs: u64) -> (refused: bool)
        requires
            record_fits(*old(self), bytes, is_uplink),
        ensures
            refused == refuses(*old(self), bytes, is_uplink, now_secs),
            *final(self) == recorded(*old(self), bytes, is_uplink, now_secs),
    {
        if self.quota_exhausted {
            return true;
        }
        let total = self.acc_total_bytes + bytes;
        self.acc_total_bytes = total;
        self.acc_total_pkts = self.acc_total_pkts.wrapping_add(1);
        if is_uplink {
            let ul = self.acc_ul_bytes + bytes;
            self.acc_ul_bytes = ul;
            self.acc_ul_pkts = self.acc_ul_pkts.wrapping_add(1);
            if let Some(thresh) = self.volume_threshold_ul {
                if ul >= thresh {
                    self.threshold_exceeded = true;
                }
            }
            if let Some(quota) = self.volume_quota_ul {
                if ul >= quota {
                    self.quota_exhausted = true;
                    return true;
                }
            }
        } else {
            let dl = self.acc_dl_bytes + bytes;
            self.acc_dl_bytes = dl;
            self.acc_dl_pkts = self.acc_dl_pkts.wrapping_add(1);
            if let Some(thresh) = self.volume_threshold_dl {
                if dl >= thresh {
                    self.threshold_exceeded = true;
                }
            }
            if let Some(quota) = self.volume_quota_dl {
                if dl >= quota {
                    self.quota_exhausted = true;
                    return true;
                }
            }
        }
        if self.first_pkt_time.is_none() {
            self.first_pkt_time = Some(now_secs);
        }
        if let Some(thresh) = self.volume_threshold_total {
            if total >= thresh {
                self.threshold_exceeded = true;
            }
        }
        if let Some(quota) = self.volume_quota_total {
            if total >= quota {
                self.quota_exhausted = true;
                return true;
            }
        }
        if let Some(time_thresh) = self.time_threshold_secs {
            if let Some(last) = self.last_report_time {
                if now_secs.saturating_sub(last) >= time_thresh as u64 {
                    self.threshold_exceeded = true;
                }
            }
        }
        if let Some(time_quota) = self.time_quota_secs {
            if let Some(last) = self.last_report_time {
                if now_secs.saturating_sub(last) >= time_quota as u64 {
                    self.quota_exhausted = true;
                    return true;
                }
            }
        }
        false
    }

    /// Zeroes the counters and flags after a report made at `now_secs`.
    pub fn reset_counters(&mut self, now_secs: u64)
        ensures
            *final(self) == (DataPlaneUrr {
                acc_total_bytes: 0,
                acc_ul_bytes: 0,
                acc_dl_bytes: 0,
                acc_total_pkts: 0,
                acc_ul_pkts: 0,
                acc_dl_pkts: 0,
                first_pkt_time: None,
                last_report_time: Some(now_secs),
                threshold_exceeded: false,
                quota_exhausted: false,
                ..*old(self)
            }),
    {
        self.acc_total_bytes = 0;
        self.acc_ul_bytes = 0;
        self.acc_dl_bytes = 0;
        self.acc_total_pkts = 0;
        self.acc_ul_pkts = 0;
        self.acc_dl_pkts = 0;
        self.first_pkt_time = None;
        self.last_report_time = Some(now_secs);
        self.threshold_exceeded = false;
        self.quota_exhausted = false;
    }
}

/// What counting a packet does to a URR, in the terms of TS 29.244 5.2.2:
/// with its quota already used up nothing changes; otherwise the packet's
/// octets are added to the total and to its direction's count (the other
/// direction's count stays), the limits stay, a report once due stays due,
/// and a report becomes due when the direction's count reaches that
/// direction's volume threshold; the quota is used up when the
/// direction's count reaches that direction's volume quota, or the total
/// reaches the total volume quota; the total reaching the total volume
/// threshold makes a report due unless the direction's quota was reached
/// first; with no quota reached and no time quota the traffic goes on.
pub proof fn lemma_record_meters(o: DataPlaneUrr, bytes: u64, is_uplink: bool, now: u64)
    requires
        record_fits(o, bytes, is_uplink),
    ensures
        ({
            let n = recorded(o, bytes, is_uplink, now);
            let dir_ul_quota = is_uplink && o.volume_quota_ul is Some && o.acc_ul_bytes + bytes
                >= o.volume_quota_ul->Some_0;
            let dir_dl_quota = !is_uplink && o.volume_quota_dl is Some && o.acc_dl_bytes + bytes
                >= o.volume_quota_dl->Some_0;
            &&& o.quota_exhausted ==> n == o
            &&& n.urr_id == o.urr_id
            &&& n.volume_threshold_total == o.volume_threshold_total && n.volume_threshold_ul
                == o.volume_threshold_ul && n.volume_threshold_dl == o.volume_threshold_dl
            &&& n.volume_quota_total == o.volume_quota_total && n.volume_quota_ul == o.volume_quota_ul
                && n.volume_quota_dl == o.volume_quota_dl
            &&& n.time_threshold_secs == o.time_threshold_secs && n.time_quota_secs == o.time_quota_secs
            &&& o.threshold_exceeded ==> n.threshold_exceeded
            &&& !o.quota_exhausted ==> {
                &&& n.acc_total_bytes == o.acc_total_bytes + bytes
                &&& is_uplink ==> n.acc_ul_bytes == o.acc_ul_bytes + bytes && n.acc_dl_bytes == o.acc_dl_bytes
                    && n.acc_dl_pkts == o.acc_dl_pkts
                &&& !is_uplink ==> n.acc_dl_bytes == o.acc_dl_bytes + bytes && n.acc_ul_bytes == o.acc_ul_bytes
                    && n.acc_ul_pkts == o.acc_ul_pkts
                &&& (is_uplink && o.volume_threshold_ul is Some && o.acc_ul_bytes + bytes
                    >= o.volume_threshold_ul->Some_0) ==> n.threshold_exceeded
                &&& (!is_uplink && o.volume_threshold_dl is Some && o.acc_dl_bytes + bytes
                    >= o.volume_threshold_dl->Some_0) ==> n.threshold_exceeded
                &&& dir_ul_quota ==> n.quota_exhausted
                &&& dir_dl_quota ==> n.quota_exhausted
                &&& (o.volume_quota_total is Some && o.acc_total_bytes + bytes >= o.volume_quota_total->Some_0)
                    ==> n.quota_exhausted
                &&& (o.volume_threshold_total is Some && o.acc_total_bytes + bytes
                    >= o.volume_threshold_total->Some_0 && !dir_ul_quota && !dir_dl_quota) ==> n.threshold_exceeded
                &&& (!dir_ul_quota && !dir_dl_quota && !(o.volume_quota_total is Some && o.acc_total_bytes + bytes
                    >= o.volume_quota_total->Some_0) && o.time_quota_secs is None) ==> !n.quota_exhausted
            }
        }),
{
}

} // verus!
