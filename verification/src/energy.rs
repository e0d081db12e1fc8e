//! Session-level energy saving (Rel-18): a session with no packet for
//! longer than a threshold enters low-power mode. Times are whole seconds
//! on the data plane's monotonic clock, passed in by the caller.

use vstd::prelude::*;

verus! {

/// The energy saving state of a session.
#[derive(Debug, Clone, Copy)]
pub struct EnergySavingState {
    /// When the last packet was forwarded
    pub last_packet_time: u64,
    /// Seconds without a packet before low-power mode
    pub inactivity_threshold_secs: u32,
    /// Whether low-power mode is on
    pub low_power_active: bool,
}

/// The seconds from `since` to `now`; 0 when `now` is earlier.
pub open spec fn elapsed_secs(since: u64, now: u64) -> int {
    if now >= since {
        now - since
    } else {
        0
    }
}

impl EnergySavingState {
    /// A state with activity now and low-power mode off.
    pub fn new(inactivity_threshold_secs: u32, now_secs: u64) -> (s: Self)
        ensures
            s.last_packet_time == now_secs,
            s.inactivity_threshold_secs == inactivity_threshold_secs,
            !s.low_power_active,
    {
        EnergySavingState { last_packet_time: now_secs, inactivity_threshold_secs, low_power_active: false }
    }

    /// Records a packet now: the inactivity timer restarts and low-power
    /// mode ends.
    pub fn record_activity(&mut self, now_secs: u64)
        ensures
            final(self).last_packet_time == now_secs,
            !final(self).low_power_active,
            final(self).inactivity_threshold_secs == old(self).inactivity_threshold_secs,
    {
        self.last_packet_time = now_secs;
        self.low_power_active = false;
    }

    /// Whether the session has been inactive for longer than the
    /// threshold; if so, low-power mode goes on (it is never turned off
    /// here).
    pub fn check_inactivity(&mut self, now_secs: u64) -> (inactive: bool)
        ensures
            inactive == (elapsed_secs(old(self).last_packet_time, now_secs) > old(self).inactivity_threshold_secs),
            final(self).low_power_active == (old(self).low_power_active || inactive),
            final(self).last_packet_time == old(self).last_packet_time,
            final(self).inactivity_threshold_secs == old(self).inactivity_threshold_secs,
    {
        let elapsed = now_secs.saturating_sub(self.last_packet_time);
        let inactive = elapsed > self.inactivity_threshold_secs as u64;
        if inactive {
            self.low_power_active = true;
        }
        inactive
    }

    /// Whether low-power mode is on.
    pub fn is_low_power(&self) -> (r: bool)
        ensures
            r == self.low_power_active,
    {
        self.low_power_active
    }
}

} // verus!
