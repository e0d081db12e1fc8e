//! GTP-U path management on N3 (TS 29.281 7.2, TS 23.007): Echo Requests
//! to each gNB peer, a path declared failed after a number of unanswered
//! requests, and peer restarts detected from the Recovery counter. Times
//! are whole seconds on the data plane's monotonic clock.

use vstd::prelude::*;
use std::collections::HashMap;
use vstd::std_specs::hash::spec_keys_iter;
use vstd::std_specs::iter::IteratorSpec;
use crate::dp_session::PeerAddr;

verus! {

broadcast use vstd::std_specs::hash::group_hash_axioms;

/// The path state of one peer.
#[derive(Debug, Clone, Copy, Default)]
pub struct GtpuPeerState {
    /// The Recovery counter last seen; `None` before any response
    pub last_recovery: Option<u8>,
    /// The sequence number of the Echo Request awaiting a response
    pub pending_seq: Option<u16>,
    /// Consecutive requests without a response
    pub miss_count: u32,
    /// When the last response came
    pub last_success: Option<u64>,
    /// The path was declared failed
    pub path_failed: bool,
}

/// The key of a peer: its address and port in one integer.
pub open spec fn peer_key(p: PeerAddr) -> u64 {
    (p.ip[0] as int * 0x1_0000_0000_0000 + p.ip[1] as int * 0x100_0000_0000 + p.ip[2] as int * 0x1_0000_0000
        + p.ip[3] as int * 0x1_0000 + p.port as int) as u64
}

/// Computes the key of a peer.
fn key_of(p: PeerAddr) -> (k: u64)
    ensures
        k == peer_key(p),
{
    (p.ip[0] as u64) * 0x1_0000_0000_0000 + (p.ip[1] as u64) * 0x100_0000_0000 + (p.ip[2] as u64) * 0x1_0000_0000
        + (p.ip[3] as u64) * 0x1_0000 + p.port as u64
}

/// The per-peer path table.
pub struct GtpuPathTable {
    peers: HashMap<u64, (PeerAddr, GtpuPeerState)>,
    next_seq: u16,
    /// Our restart counter, sent in Echo Requests
    pub restart_counter: u8,
    /// Unanswered requests before a path is declared failed
    pub miss_threshold: u32,
    /// Seconds between Echo Requests
    pub echo_interval_secs: u64,
    /// Whether path management runs
    pub enabled: bool,
}

/// A state after a response to an Echo Request: nothing pending, no miss,
/// the path up, the response time and Recovery counter recorded.
pub open spec fn answered(s: GtpuPeerState, recovery: u8, now: u64) -> GtpuPeerState {
    GtpuPeerState {
        pending_seq: None,
        miss_count: 0,
        last_success: Some(now),
        path_failed: false,
        last_recovery: Some(recovery),
    }
}

/// One tick for a peer whose path has not failed: an unanswered request is
/// a miss; at the threshold the path fails; otherwise a new request with
/// sequence number `seq` goes out. Returns the new state and whether the
/// path failed now.
pub open spec fn ticked(s: GtpuPeerState, threshold: u32, seq: u16) -> (GtpuPeerState, bool) {
    let misses = if s.pending_seq is Some { s.miss_count + 1 } else { s.miss_count as int };
    if s.pending_seq is Some && misses >= threshold {
        (GtpuPeerState { miss_count: misses as u32, path_failed: true, ..s }, true)
    } else {
        (GtpuPeerState { miss_count: misses as u32, pending_seq: Some(seq), ..s }, false)
    }
}

/// The sequence number after `s`: the next one, skipping 0.
pub open spec fn seq_after(s: u16) -> u16 {
    if s == 0xFFFF {
        1
    } else {
        (s + 1) as u16
    }
}

/// What one tick did to a peer: its address kept; a failed path left
/// alone; otherwise the state `ticked` gives for the sequence number now
/// pending, and the peer in the list of requests to send (with that
/// non-zero number) or in the list of paths failed now.
pub open spec fn tick_done(
    before: (PeerAddr, GtpuPeerState),
    after: (PeerAddr, GtpuPeerState),
    threshold: u32,
    to_send: Seq<(PeerAddr, u16)>,
    failed: Seq<PeerAddr>,
) -> bool {
    let (addr, s) = before;
    &&& after.0 == addr
    &&& s.path_failed ==> after.1 == s
    &&& !s.path_failed ==> after.1 == ticked(s, threshold, match after.1.pending_seq {
        Some(q) => q,
        None => 0,
    }).0
    &&& !s.path_failed && !ticked(s, threshold, 0).1 ==> (after.1.pending_seq matches Some(q) && q != 0
        && to_send.contains((addr, q)))
    &&& !s.path_failed && ticked(s, threshold, 0).1 ==> failed.contains(addr)
}

/// Whether a list of Echo Requests has one for the peer.
pub open spec fn sent_to(reqs: Seq<(PeerAddr, u16)>, a: PeerAddr) -> bool {
    exists|j: int| 0 <= j < reqs.len() && (#[trigger] reqs[j]).0 == a
}

/// A request in the list to send came from this peer: a live path that did
/// not fail, now waiting on that sequence number.
pub open spec fn sent_by(
    before: (PeerAddr, GtpuPeerState),
    after: (PeerAddr, GtpuPeerState),
    threshold: u32,
    req: (PeerAddr, u16),
) -> bool {
    &&& !before.1.path_failed
    &&& !ticked(before.1, threshold, 0).1
    &&& req.0 == before.0
    &&& after.1.pending_seq == Some(req.1)
}

/// A peer in the list of failed paths is this one, whose path failed now.
pub open spec fn failed_by(before: (PeerAddr, GtpuPeerState), threshold: u32, p: PeerAddr) -> bool {
    &&& !before.1.path_failed
    &&& ticked(before.1, threshold, 0).1
    &&& p == before.0
}

/// The request came from some peer of the table (see `sent_by`).
pub open spec fn sent_by_some(
    before: Map<u64, (PeerAddr, GtpuPeerState)>,
    after: Map<u64, (PeerAddr, GtpuPeerState)>,
    threshold: u32,
    req: (PeerAddr, u16),
) -> bool {
    exists|k: u64| #[trigger] before.contains_key(k) && sent_by(before[k], after[k], threshold, req)
}

/// The failed peer is some peer of the table (see `failed_by`).
pub open spec fn failed_by_some(before: Map<u64, (PeerAddr, GtpuPeerState)>, threshold: u32, p: PeerAddr) -> bool {
    exists|k: u64| #[trigger] before.contains_key(k) && failed_by(before[k], threshold, p)
}

/// Longer lists keep what one tick did.
proof fn lemma_tick_done_grows(
    before: (PeerAddr, GtpuPeerState),
    after: (PeerAddr, GtpuPeerState),
    threshold: u32,
    ts: Seq<(PeerAddr, u16)>,
    fl: Seq<PeerAddr>,
    ts2: Seq<(PeerAddr, u16)>,
    fl2: Seq<PeerAddr>,
)
    requires
        tick_done(before, after, threshold, ts, fl),
        ts.len() <= ts2.len(),
        fl.len() <= fl2.len(),
        forall|j: int| 0 <= j < ts.len() ==> ts2[j] == ts[j],
        forall|j: int| 0 <= j < fl.len() ==> fl2[j] == fl[j],
    ensures
        tick_done(before, after, threshold, ts2, fl2),
{
    let (addr, s) = before;
    if !s.path_failed && !ticked(s, threshold, 0).1 {
        let q = after.1.pending_seq.unwrap();
        let j = choose|j: int| 0 <= j < ts.len() && ts[j] == (addr, q);
        assert(ts2[j] == (addr, q));
    }
    if !s.path_failed && ticked(s, threshold, 0).1 {
        let j = choose|j: int| 0 <= j < fl.len() && fl[j] == addr;
        assert(fl2[j] == addr);
    }
}

/// Each request in `ts` came, by the index in `si`, from one of the
/// first `i` keys: a peer that `sent_by` ties to it.
pub open spec fn sends_traced(
    m0: Map<u64, (PeerAddr, GtpuPeerState)>,
    p: Map<u64, (PeerAddr, GtpuPeerState)>,
    keys: Seq<u64>,
    thr: u32,
    ts: Seq<(PeerAddr, u16)>,
    si: Seq<int>,
    i: int,
) -> bool {
    &&& si.len() == ts.len()
    &&& forall|j: int|
        #![trigger ts[j]]
        0 <= j < ts.len() ==> 0 <= si[j] && si[j] < i && sent_by(m0[keys[si[j]]], p[keys[si[j]]], thr, ts[j])
    &&& forall|j: int| 0 <= j < si.len() ==> 0 <= #[trigger] si[j] < i
    &&& forall|a: int, b: int| 0 <= a < b < si.len() ==> #[trigger] si[a] < #[trigger] si[b]
}

/// Each peer in `fl` came, by the index in `fi`, from one of the first `i`
/// keys: a peer that `failed_by` ties to it.
pub open spec fn failures_traced(
    m0: Map<u64, (PeerAddr, GtpuPeerState)>,
    keys: Seq<u64>,
    thr: u32,
    fl: Seq<PeerAddr>,
    fi: Seq<int>,
    i: int,
) -> bool {
    &&& fi.len() == fl.len()
    &&& forall|j: int|
        #![trigger fl[j]]
        0 <= j < fl.len() ==> 0 <= fi[j] && fi[j] < i && failed_by(m0[keys[fi[j]]], thr, fl[j])
    &&& forall|j: int| 0 <= j < fi.len() ==> 0 <= #[trigger] fi[j] < i
    &&& forall|a: int, b: int| 0 <= a < b < fi.len() ==> #[trigger] fi[a] < #[trigger] fi[b]
}

/// One step of the tick loop keeps the requests traced.
proof fn lemma_sends_step(
    m0: Map<u64, (PeerAddr, GtpuPeerState)>,
    p0: Map<u64, (PeerAddr, GtpuPeerState)>,
    p1: Map<u64, (PeerAddr, GtpuPeerState)>,
    keys: Seq<u64>,
    thr: u32,
    ts0: Seq<(PeerAddr, u16)>,
    si0: Seq<int>,
    ts1: Seq<(PeerAddr, u16)>,
    si1: Seq<int>,
    i: int,
)
    requires
        0 <= i,
        sends_traced(m0, p0, keys, thr, ts0, si0, i),
        forall|j: int| 0 <= j < i ==> #[trigger] p1[keys[j]] == p0[keys[j]],
        (ts1 == ts0 && si1 == si0) || (ts1.len() == ts0.len() + 1 && si1 == si0.push(i) && ts1.take(
            ts0.len() as int,
        ) == ts0 && sent_by(m0[keys[i]], p1[keys[i]], thr, ts1.last())),
    ensures
        sends_traced(m0, p1, keys, thr, ts1, si1, i + 1),
{
    assert forall|j: int| 0 <= j < ts1.len() implies #[trigger] si1[j] >= 0 && si1[j] < i + 1 && sent_by(
        m0[keys[si1[j]]],
        p1[keys[si1[j]]],
        thr,
        ts1[j],
    ) by {
        if j < ts0.len() {
            assert(ts1[j] == ts0[j]) by {
                assert(ts1.take(ts0.len() as int)[j] == ts1[j]);
            }
            assert(si1[j] == si0[j]);
            let t = ts0[j];
            assert(p1[keys[si0[j]]] == p0[keys[si0[j]]]);
        } else {
            assert(si1[j] == i);
            assert(ts1[j] == ts1.last());
        }
    }
    assert forall|a: int, b: int| 0 <= a < b < si1.len() implies #[trigger] si1[a] < #[trigger] si1[b] by {
        if b < si0.len() {
            assert(si1[a] == si0[a] && si1[b] == si0[b]);
        } else {
            assert(si1[a] == si0[a]);
            assert(si0[a] < i) by {
                assert(ts0[a] == ts0[a]);
            }
        }
    }
}

/// The `j`-th failed peer's trace.
proof fn lemma_failure_at(
    m0: Map<u64, (PeerAddr, GtpuPeerState)>,
    keys: Seq<u64>,
    thr: u32,
    fl: Seq<PeerAddr>,
    fi: Seq<int>,
    i: int,
    j: int,
)
    requires
        failures_traced(m0, keys, thr, fl, fi, i),
        0 <= j < fl.len(),
    ensures
        0 <= fi[j] < i,
        failed_by(m0[keys[fi[j]]], thr, fl[j]),
{
    assert(fl[j] == fl[j]);
    assert(fi[j] == fi[j]);
}

/// One step of the tick loop keeps the failures traced.
proof fn lemma_failures_step(
    m0: Map<u64, (PeerAddr, GtpuPeerState)>,
    keys: Seq<u64>,
    thr: u32,
    fl0: Seq<PeerAddr>,
    fi0: Seq<int>,
    fl1: Seq<PeerAddr>,
    fi1: Seq<int>,
    i: int,
)
    requires
        0 <= i,
        failures_traced(m0, keys, thr, fl0, fi0, i),
        (fl1 == fl0 && fi1 == fi0) || (fl1.len() == fl0.len() + 1 && fi1 == fi0.push(i) && fl1.take(
            fl0.len() as int,
        ) == fl0 && failed_by(m0[keys[i]], thr, fl1.last())),
    ensures
        failures_traced(m0, keys, thr, fl1, fi1, i + 1),
{
    assert forall|j: int| 0 <= j < fl1.len() implies #[trigger] fi1[j] >= 0 && fi1[j] < i + 1 && failed_by(
        m0[keys[fi1[j]]],
        thr,
        fl1[j],
    ) by {
        if j < fl0.len() {
            assert(fl1[j] == fl0[j]) by {
                assert(fl1.take(fl0.len() as int)[j] == fl1[j]);
            }
            assert(fi1[j] == fi0[j]);
            let t = fl0[j];
        } else {
            assert(fi1[j] == i);
            assert(fl1[j] == fl1.last());
        }
    }
    assert forall|a: int, b: int| 0 <= a < b < fi1.len() implies #[trigger] fi1[a] < #[trigger] fi1[b] by {
        if b < fi0.len() {
            assert(fi1[a] == fi0[a] && fi1[b] == fi0[b]);
        } else {
            assert(fi1[a] == fi0[a]);
            lemma_failure_at(m0, keys, thr, fl0, fi0, i, a);
        }
    }
}

impl GtpuPathTable {
    /// The peers and their states, by key.
    pub closed spec fn peers(&self) -> Map<u64, (PeerAddr, GtpuPeerState)> {
        self.peers@
    }

    /// The sequence number of the next Echo Request.
    pub closed spec fn next_seq(&self) -> u16 {
        self.next_seq
    }

    /// The restart counter.
    pub closed spec fn restart_counter_value(&self) -> u8 {
        self.restart_counter
    }

    /// The miss threshold.
    pub closed spec fn threshold(&self) -> u32 {
        self.miss_threshold
    }

    /// The echo interval.
    pub closed spec fn interval(&self) -> u64 {
        self.echo_interval_secs
    }

    /// Whether path management runs.
    pub closed spec fn is_enabled(&self) -> bool {
        self.enabled
    }

    /// Whether two tables have the same settings: restart counter, miss
    /// threshold, echo interval, whether enabled.
    pub open spec fn same_settings(&self, other: &GtpuPathTable) -> bool {
        &&& self.restart_counter_value() == other.restart_counter_value()
        &&& self.threshold() == other.threshold()
        &&& self.interval() == other.interval()
        &&& self.is_enabled() == other.is_enabled()
    }

    /// Every peer is under its own key, and no miss count is at its
    /// largest value.
    pub closed spec fn wf(&self) -> bool {
        &&& forall|k: u64| #[trigger] self.peers@.contains_key(k) ==> peer_key(self.peers@[k].0) == k
        &&& forall|k: u64|
            #[trigger] self.peers@.contains_key(k) ==> (!self.peers@[k].1.path_failed ==> self.peers@[k].1.miss_count
                < 0xFFFF_FFFF)
        &&& self.next_seq != 0
    }

    /// An empty, enabled table: threshold 3, interval 60 s, restart
    /// counter 0, first sequence number 1.
    pub fn new() -> (t: Self)
        ensures
            t.wf(),
            t.peers() == Map::<u64, (PeerAddr, GtpuPeerState)>::empty(),
            t.next_seq() == 1,
            t.restart_counter_value() == 0,
            t.threshold() == 3,
            t.interval() == 60,
            t.is_enabled(),
    {
        GtpuPathTable {
            peers: HashMap::new(),
            next_seq: 1,
            restart_counter: 0,
            miss_threshold: 3,
            echo_interval_secs: 60,
            enabled: true,
        }
    }

    /// Registers a peer; one already known keeps its state.
    pub fn add_peer(&mut self, peer: PeerAddr)
        requires
            old(self).wf(),
        ensures
            final(self).wf(),
            final(self).peers() == (if old(self).peers().contains_key(peer_key(peer)) {
                old(self).peers()
            } else {
                old(self).peers().insert(peer_key(peer), (peer, GtpuPeerState::default_state()))
            }),
            final(self).next_seq() == old(self).next_seq(),
            final(self).same_settings(&*old(self)),
    {
        let k = key_of(peer);
        if !self.peers.contains_key(&k) {
            self.peers.insert(k, (peer, GtpuPeerState::fresh()));
        }
    }

    /// Forgets a peer.
    pub fn remove_peer(&mut self, peer: &PeerAddr)
        requires
            old(self).wf(),
        ensures
            final(self).wf(),
            final(self).peers() == old(self).peers().remove(peer_key(*peer)),
            final(self).next_seq() == old(self).next_seq(),
            final(self).same_settings(&*old(self)),
    {
        let k = key_of(*peer);
        self.peers.remove(&k);
    }

    /// Takes an Echo Response from a peer (registering it if unknown).
    /// Returns whether the peer restarted: its Recovery counter differs
    /// from the one it sent before.
    pub fn on_echo_response(&mut self, peer: PeerAddr, recovery: u8, now_secs: u64) -> (restarted: bool)
        requires
            old(self).wf(),
        ensures
            final(self).wf(),
            ({
                let k = peer_key(peer);
                let before = if old(self).peers().contains_key(k) {
                    old(self).peers()[k]
                } else {
                    (peer, GtpuPeerState::default_state())
                };
                &&& final(self).peers() == old(self).peers().insert(k, (before.0, answered(before.1, recovery, now_secs)))
                &&& restarted == (before.1.last_recovery matches Some(prev) && prev != recovery)
            }),
            final(self).next_seq() == old(self).next_seq(),
            final(self).same_settings(&*old(self)),
    {
        let k = key_of(peer);
        let (addr, state) = match self.peers.get(&k) {
            Some(e) => *e,
            None => (peer, GtpuPeerState::fresh()),
        };
        let restarted = match state.last_recovery {
            Some(prev) => prev != recovery,
            None => false,
        };
        let new_state = GtpuPeerState {
            pending_seq: None,
            miss_count: 0,
            last_success: Some(now_secs),
            path_failed: false,
            last_recovery: Some(recovery),
        };
        self.peers.insert(k, (addr, new_state));
        restarted
    }

    /// The keys of the peers, each once.
    fn peer_keys(&self) -> (keys: Vec<u64>)
        ensures
            keys@.to_set() == self.peers@.dom(),
            keys@.no_duplicates(),
    {
        let mut keys: Vec<u64> = Vec::new();
        let ghost ks = spec_keys_iter(&self.peers).remaining();
        for k in it: self.peers.keys()
            invariant
                it.seq() == ks,
                keys@ == ks.take(it.index()).unref(),
        {
            keys.push(*k);
            proof {
                assert(keys@ =~= ks.take(it.index() + 1).unref());
            }
        }
        proof {
            assert(ks.take(ks.len() as int) =~= ks);
            assert(keys@ =~= ks.unref());
            assert forall|i: int, j: int| 0 <= i < j < keys@.len() implies keys@[i] != keys@[j] by {
                assert(ks[i] != ks[j]);
            }
        }
        keys
    }

    /// Advances every peer by one echo interval (see `ticked`): a peer
    /// whose path has failed is left alone; an unanswered request counts as
    /// a miss and, at the threshold, fails the path; any other peer is sent
    /// a new Echo Request with the next non-zero sequence number. Returns
    /// the requests to send and the peers whose path failed now: each live
    /// peer is in exactly one of the two lists, once; a failed one in
    /// neither; the next sequence number stays non-zero.
    pub fn tick(&mut self) -> (r: (Vec<(PeerAddr, u16)>, Vec<PeerAddr>))
        requires
            old(self).wf(),
        ensures
            final(self).wf(),
            final(self).peers().dom() == old(self).peers().dom(),
            final(self).threshold() == old(self).threshold(),
            final(self).same_settings(&*old(self)),
            forall|k: u64|
                #![trigger final(self).peers()[k]]
                old(self).peers().contains_key(k) ==> tick_done(
                    old(self).peers()[k],
                    final(self).peers()[k],
                    old(self).threshold(),
                    r.0@,
                    r.1@,
                ),
            forall|j: int|
                0 <= j < r.0@.len() ==> sent_by_some(
                    old(self).peers(),
                    final(self).peers(),
                    old(self).threshold(),
                    #[trigger] r.0@[j],
                ),
            forall|j: int|
                0 <= j < r.1@.len() ==> failed_by_some(old(self).peers(), old(self).threshold(), #[trigger] r.1@[j]),
            r.1@.no_duplicates(),
            forall|a: int, b: int| 0 <= a < b < r.0@.len() ==> (#[trigger] r.0@[a]).0 != (#[trigger] r.0@[b]).0,
            forall|j: int|
                0 <= j < r.0@.len() ==> {
                    let k = peer_key((#[trigger] r.0@[j]).0);
                    &&& old(self).peers().contains_key(k)
                    &&& sent_by(old(self).peers()[k], final(self).peers()[k], old(self).threshold(), r.0@[j])
                    &&& r.0@[j].1 != 0
                },
            forall|j: int|
                0 <= j < r.1@.len() ==> {
                    let k = peer_key(#[trigger] r.1@[j]);
                    &&& old(self).peers().contains_key(k)
                    &&& failed_by(old(self).peers()[k], old(self).threshold(), r.1@[j])
                },
            final(self).next_seq() != 0,
            forall|k: u64|
                #![trigger old(self).peers()[k]]
                old(self).peers().contains_key(k) ==> {
                    let a = old(self).peers()[k].0;
                    &&& old(self).peers()[k].1.path_failed ==> !r.1@.contains(a) && !sent_to(r.0@, a)
                    &&& !old(self).peers()[k].1.path_failed ==> (r.1@.contains(a) <==> !sent_to(r.0@, a))
                },
    {
        let ghost m0 = self.peers@;
        let ghost thr = self.miss_threshold;
        let keys = self.peer_keys();
        let mut to_send: Vec<(PeerAddr, u16)> = Vec::new();
        let mut failed: Vec<PeerAddr> = Vec::new();
        let n = keys.len();
        let mut i: usize = 0;
        let ghost mut sent_idx: Seq<int> = Seq::empty();
        let ghost mut failed_idx: Seq<int> = Seq::empty();
        while i < n
            invariant
                n == keys@.len(),
                i <= n,
                keys@.to_set() == m0.dom(),
                keys@.no_duplicates(),
                self.peers@.dom() == m0.dom(),
                self.next_seq != 0,
                self.miss_threshold == thr,
                thr == old(self).miss_threshold,
                self.restart_counter == old(self).restart_counter,
                self.echo_interval_secs == old(self).echo_interval_secs,
                self.enabled == old(self).enabled,
                m0 == old(self).peers@,
                forall|k: u64| #[trigger] m0.contains_key(k) ==> peer_key(m0[k].0) == k,
                forall|k: u64|
                    #[trigger] m0.contains_key(k) ==> (!m0[k].1.path_failed ==> m0[k].1.miss_count < 0xFFFF_FFFF),
                forall|j: int| i <= j < n ==> #[trigger] self.peers@[keys@[j]] == m0[keys@[j]],
                forall|j: int| 0 <= j < i ==> tick_done(m0[#[trigger] keys@[j]], self.peers@[keys@[j]], thr, to_send@, failed@),
                sends_traced(m0, self.peers@, keys@, thr, to_send@, sent_idx, i as int),
                failures_traced(m0, keys@, thr, failed@, failed_idx, i as int),
                forall|j: int| 0 <= j < to_send@.len() ==> (#[trigger] to_send@[j]).1 != 0,
            decreases n - i,
        {
            let k = keys[i];
            proof {
                assert(keys@.to_set().contains(k));
                assert forall|j: int| 0 <= j < n && j != i implies keys@[j] != k by {}
            }
            let ghost ts0 = to_send@;
            let ghost fl0 = failed@;
            let ghost p0 = self.peers@;
            let ghost si0 = sent_idx;
            let ghost fi0 = failed_idx;
            let (addr, s) = *self.peers.get(&k).unwrap();
            if !s.path_failed {
                let mut st = s;
                if st.pending_seq.is_some() {
                    st.miss_count = st.miss_count + 1;
                }
                if st.pending_seq.is_some() && st.miss_count >= self.miss_threshold {
                    st.path_failed = true;
                    failed.push(addr);
                    proof {
                        failed_idx = failed_idx.push(i as int);
                    }
                } else {
                    let seq = self.next_seq;
                    self.next_seq = if self.next_seq == 0xFFFF {
                        1
                    } else {
                        self.next_seq + 1
                    };
                    st.pending_seq = Some(seq);
                    to_send.push((addr, seq));
                    proof {
                        sent_idx = sent_idx.push(i as int);
                    }
                }
                self.peers.insert(k, (addr, st));
            }
            proof {
                assert forall|j: int| 0 <= j < ts0.len() implies to_send@[j] == ts0[j] by {}
                assert forall|j: int| 0 <= j < fl0.len() implies failed@[j] == fl0[j] by {}
                assert forall|j: int| 0 <= j <= i implies tick_done(
                    m0[#[trigger] keys@[j]],
                    self.peers@[keys@[j]],
                    thr,
                    to_send@,
                    failed@,
                ) by {
                    if j < i {
                        assert(tick_done(m0[keys@[j]], p0[keys@[j]], thr, ts0, fl0));
                        lemma_tick_done_grows(m0[keys@[j]], p0[keys@[j]], thr, ts0, fl0, to_send@, failed@);
                    } else {
                        if !s.path_failed && !ticked(s, thr, 0).1 {
                            assert(to_send@[to_send@.len() - 1] == (addr, self.peers@[k].1.pending_seq.unwrap()));
                        }
                        if !s.path_failed && ticked(s, thr, 0).1 {
                            assert(failed@[failed@.len() - 1] == addr);
                        }
                    }
                }
                assert forall|j: int| 0 <= j < i implies #[trigger] self.peers@[keys@[j]] == p0[keys@[j]] by {}
                if to_send@.len() != ts0.len() {
                    assert(to_send@.take(ts0.len() as int) =~= ts0);
                }
                if failed@.len() != fl0.len() {
                    assert(failed@.take(fl0.len() as int) =~= fl0);
                }
                lemma_sends_step(m0, p0, self.peers@, keys@, thr, ts0, si0, to_send@, sent_idx, i as int);
                lemma_failures_step(m0, keys@, thr, fl0, fi0, failed@, failed_idx, i as int);
            }
            i = i + 1;
        }
        proof {
            assert forall|k: u64| #[trigger] m0.contains_key(k) implies tick_done(m0[k], self.peers@[k], thr, to_send@, failed@) by {
                assert(keys@.to_set().contains(k));
                let j = choose|j: int| 0 <= j < n && keys@[j] == k;
                assert(tick_done(m0[keys@[j]], self.peers@[keys@[j]], thr, to_send@, failed@));
            }
            assert forall|j: int|
                0 <= j < to_send@.len() implies sent_by_some(m0, self.peers@, thr, #[trigger] to_send@[j]) by {
                let t = to_send@[j];
                let k = keys@[sent_idx[j]];
                assert(keys@.to_set().contains(k));
                assert(m0.contains_key(k) && sent_by(m0[k], self.peers@[k], thr, to_send@[j]));
            }
            assert forall|j: int|
                0 <= j < failed@.len() implies failed_by_some(m0, thr, #[trigger] failed@[j]) by {
                let t = failed@[j];
                let k = keys@[failed_idx[j]];
                assert(keys@.to_set().contains(k));
                assert(m0.contains_key(k) && failed_by(m0[k], thr, failed@[j]));
            }
            assert forall|j: int| 0 <= j < to_send@.len() implies {
                let k = peer_key((#[trigger] to_send@[j]).0);
                &&& m0.contains_key(k)
                &&& sent_by(m0[k], self.peers@[k], thr, to_send@[j])
                &&& to_send@[j].1 != 0
            } by {
                assert(0 <= sent_idx[j] < n);
                let k = keys@[sent_idx[j]];
                assert(keys@.to_set().contains(k));
                assert(sent_by(m0[k], self.peers@[k], thr, to_send@[j]));
                assert(peer_key(m0[k].0) == k);
            }
            assert forall|j: int| 0 <= j < failed@.len() implies {
                let k = peer_key(#[trigger] failed@[j]);
                &&& m0.contains_key(k)
                &&& failed_by(m0[k], thr, failed@[j])
            } by {
                lemma_failure_at(m0, keys@, thr, failed@, failed_idx, n as int, j);
                let k = keys@[failed_idx[j]];
                assert(keys@.to_set().contains(k));
                assert(peer_key(m0[k].0) == k);
            }
            assert forall|a: int, b: int| 0 <= a < b < failed@.len() implies failed@[a] != failed@[b] by {
                lemma_failure_at(m0, keys@, thr, failed@, failed_idx, n as int, a);
                lemma_failure_at(m0, keys@, thr, failed@, failed_idx, n as int, b);
                let ka = keys@[failed_idx[a]];
                let kb = keys@[failed_idx[b]];
                assert(failed_idx[a] < failed_idx[b]);
                assert(keys@.no_duplicates());
                assert(keys@.to_set().contains(ka) && keys@.to_set().contains(kb));
                assert(ka != kb);
                assert(peer_key(m0[ka].0) == ka && peer_key(m0[kb].0) == kb);
            }
            assert forall|a: int, b: int| 0 <= a < b < to_send@.len() implies (#[trigger] to_send@[a]).0 != (
            #[trigger] to_send@[b]).0 by {
                assert(to_send@[a] == to_send@[a] && to_send@[b] == to_send@[b]);
                assert(0 <= sent_idx[a] < n && 0 <= sent_idx[b] < n);
                let ka = keys@[sent_idx[a]];
                let kb = keys@[sent_idx[b]];
                assert(sent_idx[a] < sent_idx[b]);
                assert(keys@.to_set().contains(ka) && keys@.to_set().contains(kb));
                assert(ka != kb);
                assert(peer_key(m0[ka].0) == ka && peer_key(m0[kb].0) == kb);
            }
            assert(old(self).peers() == m0);
            assert forall|k: u64|
                #![trigger old(self).peers()[k]]
                old(self).peers().contains_key(k) implies {
                    let a = m0[k].0;
                    &&& m0[k].1.path_failed ==> !failed@.contains(a) && !sent_to(to_send@, a)
                    &&& !m0[k].1.path_failed ==> (failed@.contains(a) <==> !sent_to(to_send@, a))
                } by {
                let a = m0[k].0;
                assert(peer_key(a) == k);
                assert(tick_done(m0[k], self.peers@[k], thr, to_send@, failed@));
                if failed@.contains(a) {
                    let j = choose|j: int| 0 <= j < failed@.len() && failed@[j] == a;
                    assert(failed_by(m0[peer_key(failed@[j])], thr, failed@[j]));
                }
                assert forall|j: int| 0 <= j < to_send@.len() && (#[trigger] to_send@[j]).0 == a implies
                    sent_by(m0[k], self.peers@[k], thr, to_send@[j]) by {
                    assert(sent_by(m0[peer_key(to_send@[j].0)], self.peers@[peer_key(to_send@[j].0)], thr, to_send@[j]));
                }
                if !m0[k].1.path_failed && !ticked(m0[k].1, thr, 0).1 {
                    let q = self.peers@[k].1.pending_seq.unwrap();
                    assert(to_send@.contains((a, q)));
                    let j = choose|j: int| 0 <= j < to_send@.len() && to_send@[j] == (a, q);
                    assert(to_send@[j].0 == a);
                }
            }
        }
        (to_send, failed)
    }

    /// Our restart counter.
    pub fn current_restart_counter(&self) -> (r: u8)
        ensures
            r == self.restart_counter_value(),
    {
        self.restart_counter
    }

    /// The number of peers.
    pub fn peer_count(&self) -> (n: usize)
        ensures
            n == self.peers().len(),
    {
        self.peers.len()
    }

    /// The path state of a peer, when it is known.
    pub fn peer_state(&self, peer: &PeerAddr) -> (r: Option<GtpuPeerState>)
        ensures
            match r {
                Some(s) => self.peers().contains_key(peer_key(*peer)) && self.peers()[peer_key(*peer)].1 == s,
                None => !self.peers().contains_key(peer_key(*peer)),
            },
    {
        let k = key_of(*peer);
        match self.peers.get(&k) {
            Some(entry) => Some(entry.1),
            None => None,
        }
    }
}

impl GtpuPeerState {
    /// The state of a peer not heard from yet.
    pub open spec fn default_state() -> GtpuPeerState {
        GtpuPeerState { last_recovery: None, pending_seq: None, miss_count: 0, last_success: None, path_failed: false }
    }

    /// The state of a peer not heard from yet.
    pub fn fresh() -> (s: GtpuPeerState)
        ensures
            s == GtpuPeerState::default_state(),
    {
        GtpuPeerState { last_recovery: None, pending_seq: None, miss_count: 0, last_success: None, path_failed: false }
    }
}

/// In every well-formed path table (every table `new` makes, kept so by
/// each call) the next Echo Request sequence number is not 0.
pub proof fn lemma_next_seq_nonzero(t: GtpuPathTable)
    requires
        t.wf(),
    ensures
        t.next_seq() != 0,
{
}

} // verus!
