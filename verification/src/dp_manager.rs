//! The data plane's session table: sessions by UPF SEID, looked up too by
//! uplink TEID and by UE IPv4 address, and the TEID and SEID allocators.

use vstd::prelude::*;
use std::collections::HashMap;
use vstd::std_specs::hash::spec_keys_iter;
use vstd::std_specs::iter::IteratorSpec;
use crate::wire::{u32_of, read_u32};
use crate::dp_session::{DataPlaneSession, PeerAddr};

verus! {

broadcast use vstd::std_specs::hash::group_hash_axioms;

/// The key of a UE IPv4 address: its value as a big-endian integer.
pub open spec fn ip_key(a: [u8; 4]) -> u32 {
    u32_of(a[0], a[1], a[2], a[3])
}

/// Computes the key of a UE IPv4 address.
fn ip_key_of(a: [u8; 4]) -> (k: u32)
    ensures
        k == ip_key(a),
{
    read_u32(&a, 0)
}

/// An uplink TEID entry: the session of the table under a SEID, or a
/// session that has left the table (replaced under its SEID) and that the
/// entry still holds.
pub enum UlSlot {
    Live(u64),
    Stale(DataPlaneSession),
}

/// A UE address entry: the session of the table under a SEID, a session
/// that has left the table and that the entry holds, or one that the
/// uplink TEID entry under the given TEID holds for both entries.
pub enum IpSlot {
    Live(u64),
    Stale(DataPlaneSession),
    StaleAt(u32),
}

/// The data plane sessions.
pub struct SessionManager {
    seid_map: HashMap<u64, DataPlaneSession>,
    ul_teid_map: HashMap<u32, UlSlot>,
    ue_ip_map: HashMap<u32, IpSlot>,
    next_teid: u64,
    next_seid: u64,
}

/// The statistics row of a session: UPF SEID, UE address, uplink and
/// downlink packets, uplink and downlink octets.
pub open spec fn session_stat(s: DataPlaneSession) -> (u64, Option<[u8; 4]>, u64, u64, u64, u64) {
    (s.upf_seid, s.ue_ipv4, s.ul_packets, s.dl_packets, s.ul_bytes, s.dl_bytes)
}

/// The session a lookup index leads to: the SEID it holds for the key, and
/// the session under that SEID.
pub open spec fn through(index: Map<u32, u64>, sessions: Map<u64, DataPlaneSession>, key: u32) -> Option<
    DataPlaneSession,
> {
    if index.contains_key(key) && sessions.contains_key(index[key]) {
        Some(sessions[index[key]])
    } else {
        None
    }
}

/// The UE address key of a session, when it has an address.
pub open spec fn ip_key_of_session(s: DataPlaneSession) -> Option<u32> {
    match s.ue_ipv4 {
        Some(a) => Some(ip_key(a)),
        None => None,
    }
}

/// The session an uplink TEID entry leads to.
pub open spec fn ul_target(sessions: Map<u64, DataPlaneSession>, slot: UlSlot) -> Option<DataPlaneSession> {
    match slot {
        UlSlot::Live(x) => if sessions.contains_key(x) {
            Some(sessions[x])
        } else {
            None
        },
        UlSlot::Stale(o) => Some(o),
    }
}

/// The session a UE address entry leads to.
pub open spec fn ip_target(
    sessions: Map<u64, DataPlaneSession>,
    ul: Map<u32, UlSlot>,
    slot: IpSlot,
) -> Option<DataPlaneSession> {
    match slot {
        IpSlot::Live(x) => if sessions.contains_key(x) {
            Some(sessions[x])
        } else {
            None
        },
        IpSlot::Stale(o) => Some(o),
        IpSlot::StaleAt(t) => if ul.contains_key(t) && ul[t] is Stale {
            Some(ul[t]->Stale_0)
        } else {
            None
        },
    }
}

/// An uplink TEID index once the session under `seid` leaves the table:
/// its own TEID entry no longer leads to the table.
pub open spec fn unlinked_ul_of(sessions: Map<u64, DataPlaneSession>, ul: Map<u32, u64>, seid: u64) -> Map<u32, u64> {
    if sessions.contains_key(seid) && ul.contains_key(sessions[seid].ul_teid) && ul[sessions[seid].ul_teid] == seid {
        ul.remove(sessions[seid].ul_teid)
    } else {
        ul
    }
}

/// A UE address index once the session under `seid` leaves the table.
pub open spec fn unlinked_ip_of(sessions: Map<u64, DataPlaneSession>, ip: Map<u32, u64>, seid: u64) -> Map<u32, u64> {
    if sessions.contains_key(seid) {
        match ip_key_of_session(sessions[seid]) {
            Some(k) => if ip.contains_key(k) && ip[k] == seid {
                ip.remove(k)
            } else {
                ip
            },
            None => ip,
        }
    } else {
        ip
    }
}

/// The uplink TEID index of a table once the session under `seid` leaves it.
pub open spec fn unlinked_ul(m: SessionManager, seid: u64) -> Map<u32, u64> {
    unlinked_ul_of(m.sessions(), m.ul_index(), seid)
}

/// The UE address index of a table once the session under `seid` leaves it.
pub open spec fn unlinked_ip(m: SessionManager, seid: u64) -> Map<u32, u64> {
    unlinked_ip_of(m.sessions(), m.ip_index(), seid)
}

/// The TEID entries once the session `o` has left the table: its TEID
/// entry, where it still leads to its SEID, holds it.
pub open spec fn retired_ul(ul: Map<u32, UlSlot>, o: DataPlaneSession, x: u64) -> Map<u32, UlSlot> {
    if ul.contains_key(o.ul_teid) && ul[o.ul_teid] == UlSlot::Live(x) {
        ul.insert(o.ul_teid, UlSlot::Stale(o))
    } else {
        ul
    }
}

/// The address entries once the session `o` has left the table: its
/// address entry, where it still leads to its SEID, finds it through the
/// TEID entry that holds it, or holds it itself.
pub open spec fn retired_ip(ul: Map<u32, UlSlot>, ip: Map<u32, IpSlot>, o: DataPlaneSession, x: u64) -> Map<
    u32,
    IpSlot,
> {
    let ul_live = ul.contains_key(o.ul_teid) && ul[o.ul_teid] == UlSlot::Live(x);
    match ip_key_of_session(o) {
        Some(k) => if ip.contains_key(k) && ip[k] == IpSlot::Live(x) {
            ip.insert(
                k,
                if ul_live {
                    IpSlot::StaleAt(o.ul_teid)
                } else {
                    IpSlot::Stale(o)
                },
            )
        } else {
            ip
        },
        None => ip,
    }
}

/// The address entries once the TEID entry under `t` goes: a session that
/// entry held for an address entry moves into it.
pub open spec fn moved_ip(ul: Map<u32, UlSlot>, ip: Map<u32, IpSlot>, t: u32) -> Map<u32, IpSlot> {
    if ul.contains_key(t) && ul[t] is Stale && ip_key_of_session(ul[t]->Stale_0) is Some && ip.contains_key(
        ip_key_of_session(ul[t]->Stale_0)->Some_0,
    ) && ip[ip_key_of_session(ul[t]->Stale_0)->Some_0] == IpSlot::StaleAt(t) {
        ip.insert(ip_key_of_session(ul[t]->Stale_0)->Some_0, IpSlot::Stale(ul[t]->Stale_0))
    } else {
        ip
    }
}

impl SessionManager {
    /// The sessions by UPF SEID.
    pub closed spec fn sessions(&self) -> Map<u64, DataPlaneSession> {
        self.seid_map@
    }

    /// The uplink TEID entries.
    pub closed spec fn ul_slots(&self) -> Map<u32, UlSlot> {
        self.ul_teid_map@
    }

    /// The UE address entries.
    pub closed spec fn ip_slots(&self) -> Map<u32, IpSlot> {
        self.ue_ip_map@
    }

    /// The uplink TEID index: TEID to the UPF SEID of a session of the
    /// table.
    pub open spec fn ul_index(&self) -> Map<u32, u64> {
        Map::new(
            |t: u32| self.ul_slots().contains_key(t) && self.ul_slots()[t] is Live,
            |t: u32| self.ul_slots()[t]->Live_0,
        )
    }

    /// The UE address index: address key to the UPF SEID of a session of
    /// the table.
    pub open spec fn ip_index(&self) -> Map<u32, u64> {
        Map::new(
            |k: u32| self.ip_slots().contains_key(k) && self.ip_slots()[k] is Live,
            |k: u32| self.ip_slots()[k]->Live_0,
        )
    }

    /// The session each uplink TEID finds.
    pub open spec fn ul_objects(&self) -> Map<u32, DataPlaneSession> {
        Map::new(
            |t: u32| self.ul_slots().contains_key(t) && ul_target(self.sessions(), self.ul_slots()[t]) is Some,
            |t: u32| ul_target(self.sessions(), self.ul_slots()[t])->Some_0,
        )
    }

    /// The session each UE address key finds.
    pub open spec fn ip_objects(&self) -> Map<u32, DataPlaneSession> {
        Map::new(
            |k: u32|
                self.ip_slots().contains_key(k) && ip_target(self.sessions(), self.ul_slots(), self.ip_slots()[k])
                    is Some,
            |k: u32| ip_target(self.sessions(), self.ul_slots(), self.ip_slots()[k])->Some_0,
        )
    }

    /// Every entry that leads to the table is under its session's own key;
    /// an entry that holds a session for the TEID entry is under that
    /// session's address key.
    pub open spec fn wf(&self) -> bool {
        &&& forall|x: u64| #[trigger] self.sessions().contains_key(x) ==> self.sessions()[x].upf_seid == x
        &&& forall|t: u32|
            #![trigger self.ul_slots()[t]]
            self.ul_slots().contains_key(t) && self.ul_slots()[t] is Live ==> {
                let x = self.ul_slots()[t]->Live_0;
                self.sessions().contains_key(x) && self.sessions()[x].ul_teid == t
            }
        &&& forall|k: u32|
            #![trigger self.ip_slots()[k]]
            self.ip_slots().contains_key(k) && self.ip_slots()[k] is Live ==> {
                let x = self.ip_slots()[k]->Live_0;
                self.sessions().contains_key(x) && ip_key_of_session(self.sessions()[x]) == Some(k)
            }
        &&& forall|k: u32|
            #![trigger self.ip_slots()[k]]
            self.ip_slots().contains_key(k) && self.ip_slots()[k] is StaleAt ==> {
                let t = self.ip_slots()[k]->StaleAt_0;
                self.ul_slots().contains_key(t) && self.ul_slots()[t] is Stale && ip_key_of_session(
                    self.ul_slots()[t]->Stale_0,
                ) == Some(k)
            }
    }

    /// The next TEID counter.
    pub closed spec fn teid_counter(&self) -> u64 {
        self.next_teid
    }

    /// The next SEID counter.
    pub closed spec fn seid_counter(&self) -> u64 {
        self.next_seid
    }

    /// An empty table; the first TEID and SEID allocated are 1.
    pub fn new() -> (m: Self)
        ensures
            m.sessions() == Map::<u64, DataPlaneSession>::empty(),
            m.ul_index() == Map::<u32, u64>::empty(),
            m.ip_index() == Map::<u32, u64>::empty(),
            m.ul_objects() == Map::<u32, DataPlaneSession>::empty(),
            m.ip_objects() == Map::<u32, DataPlaneSession>::empty(),
            m.wf(),
            m.teid_counter() == 1,
            m.seid_counter() == 1,
    {
        SessionManager {
            seid_map: HashMap::new(),
            ul_teid_map: HashMap::new(),
            ue_ip_map: HashMap::new(),
            next_teid: 1,
            next_seid: 1,
        }
    }

    /// Allocates a TEID: the counter's low 32 bits; the counter moves on
    /// (wrapping).
    pub fn allocate_teid(&mut self) -> (t: u32)
        ensures
            t == old(self).teid_counter() % 0x1_0000_0000,
            final(self).teid_counter() == (if old(self).teid_counter() == 0xFFFF_FFFF_FFFF_FFFF {
                0
            } else {
                (old(self).teid_counter() + 1) as u64
            }),
            final(self).sessions() == old(self).sessions(),
            final(self).ul_index() == old(self).ul_index(),
            final(self).ip_index() == old(self).ip_index(),
            final(self).seid_counter() == old(self).seid_counter(),
    {
        let t = (self.next_teid % 0x1_0000_0000) as u32;
        self.next_teid = self.next_teid.wrapping_add(1);
        t
    }

    /// Allocates a SEID: the counter; the counter moves on (wrapping).
    pub fn allocate_seid(&mut self) -> (s: u64)
        ensures
            s == old(self).seid_counter(),
            final(self).seid_counter() == (if old(self).seid_counter() == 0xFFFF_FFFF_FFFF_FFFF {
                0
            } else {
                (old(self).seid_counter() + 1) as u64
            }),
            final(self).sessions() == old(self).sessions(),
            final(self).ul_index() == old(self).ul_index(),
            final(self).ip_index() == old(self).ip_index(),
            final(self).teid_counter() == old(self).teid_counter(),
    {
        let s = self.next_seid;
        self.next_seid = self.next_seid.wrapping_add(1);
        s
    }

    /// Makes the entries of a session that has left the table hold it:
    /// its TEID entry and its address entry, where they still lead to its
    /// SEID.
    fn retire(&mut self, o: DataPlaneSession, x: u64)
        ensures
            final(self).sessions() == old(self).sessions(),
            final(self).ul_slots() == retired_ul(old(self).ul_slots(), o, x),
            final(self).ip_slots() == retired_ip(old(self).ul_slots(), old(self).ip_slots(), o, x),
            final(self).teid_counter() == old(self).teid_counter(),
            final(self).seid_counter() == old(self).seid_counter(),
    {
        let t = o.ul_teid;
        let ul_live = match self.ul_teid_map.get(&t) {
            Some(UlSlot::Live(y)) => *y == x,
            _ => false,
        };
        let k = match o.ue_ipv4 {
            Some(a) => Some(ip_key_of(a)),
            None => None,
        };
        let ip_live = match k {
            Some(kk) => match self.ue_ip_map.get(&kk) {
                Some(IpSlot::Live(y)) => *y == x,
                _ => false,
            },
            None => false,
        };
        if ip_live {
            let kk = k.unwrap();
            if ul_live {
                self.ue_ip_map.insert(kk, IpSlot::StaleAt(t));
            } else {
                self.ue_ip_map.insert(kk, IpSlot::Stale(o));
                return;
            }
        }
        if ul_live {
            self.ul_teid_map.insert(t, UlSlot::Stale(o));
        }
    }

    /// Takes the TEID entry under `t` out; a session it held for the
    /// address entry too moves into that entry. Returns the UPF SEID and UE
    /// address of the session the entry held, or the SEID it led to.
    fn unhook_ul(&mut self, t: u32) -> (r: Option<(u64, Option<[u8; 4]>, bool)>)
        ensures
            final(self).sessions() == old(self).sessions(),
            final(self).ul_slots() == old(self).ul_slots().remove(t),
            final(self).ip_slots() == moved_ip(old(self).ul_slots(), old(self).ip_slots(), t),
            r == (if !old(self).ul_slots().contains_key(t) {
                None
            } else {
                match old(self).ul_slots()[t] {
                    UlSlot::Live(x) => Some((x, None, true)),
                    UlSlot::Stale(o) => Some((o.upf_seid, o.ue_ipv4, false)),
                }
            }),
            final(self).teid_counter() == old(self).teid_counter(),
            final(self).seid_counter() == old(self).seid_counter(),
    {
        match self.ul_teid_map.remove(&t) {
            None => None,
            Some(UlSlot::Live(x)) => Some((x, None, true)),
            Some(UlSlot::Stale(o)) => {
                let x = o.upf_seid;
                let ip = o.ue_ipv4;
                if let Some(a) = ip {
                    let kk = ip_key_of(a);
                    let at = match self.ue_ip_map.get(&kk) {
                        Some(IpSlot::StaleAt(u)) => *u == t,
                        _ => false,
                    };
                    if at {
                        self.ue_ip_map.insert(kk, IpSlot::Stale(o));
                    }
                }
                Some((x, ip, false))
            },
        }
    }

    /// Adds a session under its UPF SEID, its uplink TEID and its UE IPv4
    /// address. An entry already under one of these keys is replaced; a
    /// session the table already had under the SEID leaves it, and its
    /// other entries keep finding it.
    pub fn add_session(&mut self, session: DataPlaneSession)
        ensures
            final(self).sessions() == old(self).sessions().insert(session.upf_seid, session),
            final(self).ul_index() == unlinked_ul(*old(self), session.upf_seid).insert(
                session.ul_teid,
                session.upf_seid,
            ),
            final(self).ip_index() == (match session.ue_ipv4 {
                Some(a) => unlinked_ip(*old(self), session.upf_seid).insert(ip_key(a), session.upf_seid),
                None => unlinked_ip(*old(self), session.upf_seid),
            }),
            old(self).wf() ==> final(self).wf(),
            old(self).wf() ==> final(self).ul_objects() == old(self).ul_objects().insert(session.ul_teid, session),
            old(self).wf() ==> final(self).ip_objects() == (match session.ue_ipv4 {
                Some(a) => old(self).ip_objects().insert(ip_key(a), session),
                None => old(self).ip_objects(),
            }),
            final(self).teid_counter() == old(self).teid_counter(),
            final(self).seid_counter() == old(self).seid_counter(),
    {
        let ghost m0 = *self;
        let seid = session.upf_seid;
        let teid = session.ul_teid;
        let ip = session.ue_ipv4;
        match self.seid_map.remove(&seid) {
            Some(o) => {
                self.retire(o, seid);
            },
            None => {},
        }
        let ghost m1 = *self;
        self.unhook_ul(teid);
        let ghost m2 = *self;
        self.ul_teid_map.insert(teid, UlSlot::Live(seid));
        if let Some(a) = ip {
            self.ue_ip_map.insert(ip_key_of(a), IpSlot::Live(seid));
        }
        self.seid_map.insert(seid, session);
        proof {
            lemma_add_indexes(m0, m1, m2, *self, session);
            if m0.wf() {
                lemma_add_objects(m0, m1, m2, *self, session);
            }
        }
    }

    /// The session with a UPF SEID.
    pub fn find_by_seid(&self, seid: u64) -> (r: Option<&DataPlaneSession>)
        ensures
            match r {
                Some(s) => self.sessions().contains_key(seid) && *s == self.sessions()[seid],
                None => !self.sessions().contains_key(seid),
            },
    {
        self.seid_map.get(&seid)
    }

    /// The session that receives on an uplink TEID.
    pub fn find_by_ul_teid(&self, teid: u32) -> (r: Option<&DataPlaneSession>)
        ensures
            match r {
                Some(s) => self.ul_objects().contains_key(teid) && self.ul_objects()[teid] == *s,
                None => !self.ul_objects().contains_key(teid),
            },
    {
        match self.ul_teid_map.get(&teid) {
            Some(UlSlot::Live(seid)) => self.seid_map.get(seid),
            Some(UlSlot::Stale(o)) => Some(o),
            None => None,
        }
    }

    /// The session of a UE IPv4 address.
    pub fn find_by_ue_ip(&self, ip: [u8; 4]) -> (r: Option<&DataPlaneSession>)
        ensures
            match r {
                Some(s) => self.ip_objects().contains_key(ip_key(ip)) && self.ip_objects()[ip_key(ip)] == *s,
                None => !self.ip_objects().contains_key(ip_key(ip)),
            },
    {
        match self.ue_ip_map.get(&ip_key_of(ip)) {
            Some(IpSlot::Live(seid)) => self.seid_map.get(seid),
            Some(IpSlot::Stale(o)) => Some(o),
            Some(IpSlot::StaleAt(t)) => match self.ul_teid_map.get(t) {
                Some(UlSlot::Stale(o)) => Some(o),
                _ => None,
            },
            None => None,
        }
    }

    /// The SEID the uplink TEID index gives, when a session of the table is
    /// there.
    pub fn seid_by_ul_teid(&self, teid: u32) -> (r: Option<u64>)
        ensures
            r == (if self.ul_index().contains_key(teid) && self.sessions().contains_key(self.ul_index()[teid]) {
                Some(self.ul_index()[teid])
            } else {
                None
            }),
    {
        match self.ul_teid_map.get(&teid) {
            Some(UlSlot::Live(seid)) => if self.seid_map.contains_key(seid) {
                Some(*seid)
            } else {
                None
            },
            _ => None,
        }
    }

    /// The SEID the UE address index gives, when a session of the table is
    /// there.
    pub fn seid_by_ue_ip(&self, ip: [u8; 4]) -> (r: Option<u64>)
        ensures
            r == (if self.ip_index().contains_key(ip_key(ip)) && self.sessions().contains_key(
                self.ip_index()[ip_key(ip)],
            ) {
                Some(self.ip_index()[ip_key(ip)])
            } else {
                None
            }),
    {
        match self.ue_ip_map.get(&ip_key_of(ip)) {
            Some(IpSlot::Live(seid)) => if self.seid_map.contains_key(seid) {
                Some(*seid)
            } else {
                None
            },
            _ => None,
        }
    }

    /// Whether a session with the SEID exists to take a new downlink
    /// tunnel; the table is not changed.
    pub fn update_session_dl(&self, seid: u64, dl_teid: u32, gnb_addr: PeerAddr) -> (r: bool)
        ensures
            r == self.sessions().contains_key(seid),
    {
        self.seid_map.contains_key(&seid)
    }

    /// Removes the session with a UPF SEID, and the entries under its
    /// uplink TEID and UE address, whatever they lead to. Returns whether
    /// there was one.
    pub fn remove_session_by_seid(&mut self, seid: u64) -> (r: bool)
        ensures
            r == old(self).sessions().contains_key(seid),
            final(self).sessions() == old(self).sessions().remove(seid),
            r ==> {
                let s = old(self).sessions()[seid];
                &&& final(self).ul_index() == old(self).ul_index().remove(s.ul_teid)
                &&& final(self).ip_index() == (match s.ue_ipv4 {
                    Some(a) => old(self).ip_index().remove(ip_key(a)),
                    None => old(self).ip_index(),
                })
            },
            !r ==> final(self).ul_slots() == old(self).ul_slots() && final(self).ip_slots() == old(self).ip_slots(),
            (r && old(self).wf()) ==> {
                let s = old(self).sessions()[seid];
                &&& final(self).wf()
                &&& final(self).ul_objects() == old(self).ul_objects().remove(s.ul_teid)
                &&& final(self).ip_objects() == (match s.ue_ipv4 {
                    Some(a) => old(self).ip_objects().remove(ip_key(a)),
                    None => old(self).ip_objects(),
                })
            },
            final(self).teid_counter() == old(self).teid_counter(),
            final(self).seid_counter() == old(self).seid_counter(),
    {
        self.detach_session(seid).is_some()
    }

    /// Removes the session with a UPF SEID as `remove_session_by_seid`
    /// does, and returns it.
    pub(crate) fn detach_session(&mut self, seid: u64) -> (r: Option<DataPlaneSession>)
        ensures
            r == (if old(self).sessions().contains_key(seid) {
                Some(old(self).sessions()[seid])
            } else {
                None
            }),
            final(self).sessions() == old(self).sessions().remove(seid),
            r is Some ==> {
                let s = old(self).sessions()[seid];
                &&& final(self).ul_index() == old(self).ul_index().remove(s.ul_teid)
                &&& final(self).ip_index() == (match s.ue_ipv4 {
                    Some(a) => old(self).ip_index().remove(ip_key(a)),
                    None => old(self).ip_index(),
                })
            },
            r is None ==> final(self).ul_slots() == old(self).ul_slots() && final(self).ip_slots() == old(
                self,
            ).ip_slots(),
            (r is Some && old(self).wf()) ==> {
                let s = old(self).sessions()[seid];
                &&& final(self).wf()
                &&& final(self).ul_objects() == old(self).ul_objects().remove(s.ul_teid)
                &&& final(self).ip_objects() == (match s.ue_ipv4 {
                    Some(a) => old(self).ip_objects().remove(ip_key(a)),
                    None => old(self).ip_objects(),
                })
            },
            final(self).teid_counter() == old(self).teid_counter(),
            final(self).seid_counter() == old(self).seid_counter(),
    {
        let ghost m0 = *self;
        match self.seid_map.remove(&seid) {
            Some(sess) => {
                let ghost m1 = *self;
                self.unhook_ul(sess.ul_teid);
                let ghost m2 = *self;
                if let Some(a) = sess.ue_ipv4 {
                    self.ue_ip_map.remove(&ip_key_of(a));
                }
                proof {
                    lemma_detach(m0, m1, m2, *self, seid);
                }
                Some(sess)
            },
            None => None,
        }
    }

    /// Removes the entry under an uplink TEID, then the session of the
    /// table under the SEID of the session it found and the entry under
    /// that session's UE address.
    pub fn remove_session(&mut self, ul_teid: u32)
        ensures
            old(self).wf() ==> final(self).wf(),
            old(self).wf() ==> match old(self).ul_objects().get(ul_teid) {
                None => final(self).sessions() == old(self).sessions() && final(self).ul_objects()
                    == old(self).ul_objects().remove(ul_teid) && final(self).ip_objects() == old(self).ip_objects(),
                Some(f) => {
                    &&& final(self).sessions() == old(self).sessions().remove(f.upf_seid)
                    &&& final(self).ul_objects() == old(self).ul_objects().remove(ul_teid)
                    &&& final(self).ip_objects() == match f.ue_ipv4 {
                        Some(a) => old(self).ip_objects().remove(ip_key(a)),
                        None => old(self).ip_objects(),
                    }
                },
            },
            final(self).teid_counter() == old(self).teid_counter(),
            final(self).seid_counter() == old(self).seid_counter(),
    {
        let ghost m0 = *self;
        match self.unhook_ul(ul_teid) {
            None => {
                proof {
                    lemma_remove_none(m0, *self, ul_teid);
                }
            },
            Some((x, ip, live)) => {
                let ghost m1 = *self;
                let found = self.seid_map.remove(&x);
                let ghost m2 = *self;
                let mut ip = ip;
                match found {
                    Some(n) => {
                        if live {
                            ip = n.ue_ipv4;
                        }
                        self.retire(n, x);
                    },
                    None => {},
                }
                let ghost m3 = *self;
                if let Some(a) = ip {
                    self.ue_ip_map.remove(&ip_key_of(a));
                }
                proof {
                    if m0.wf() {
                        lemma_remove_found(m0, m1, m2, m3, *self, ul_teid);
                    }
                }
            },
        }
    }

    /// The keys of the session table, each once.
    pub fn seids(&self) -> (keys: Vec<u64>)
        ensures
            keys@.to_set() == self.sessions().dom(),
            keys@.no_duplicates(),
    {
        let mut keys: Vec<u64> = Vec::new();
        let ghost ks = spec_keys_iter(&self.seid_map).remaining();
        for k in it: self.seid_map.keys()
            invariant
                it.seq() == ks,
                keys@ == ks.take(it.index()).unref(),
        {
            keys.push(*k);
            proof {
                assert(keys@ =~= ks.take(it.index() + 1).unref());
            }
        }
        proof {
            assert(ks.take(ks.len() as int) =~= ks);
            assert(keys@ =~= ks.unref());
            assert forall|i: int, j: int| 0 <= i < j < keys@.len() implies keys@[i] != keys@[j] by {
                assert(ks[i] != ks[j]);
            }
        }
        keys
    }

    /// A session that sends downlink traffic with a TEID, if one does.
    pub fn find_by_dl_teid(&self, teid: u32) -> (r: Option<&DataPlaneSession>)
        ensures
            match r {
                Some(s) => s.dl_teid == teid && exists|k: u64|
                    #[trigger] self.sessions().contains_key(k) && self.sessions()[k] == *s,
                None => forall|k: u64| #[trigger] self.sessions().contains_key(k) ==> self.sessions()[k].dl_teid != teid,
            },
    {
        let keys = self.seids();
        let n = keys.len();
        let mut i: usize = 0;
        while i < n
            invariant
                n == keys@.len(),
                i <= n,
                keys@.to_set() == self.sessions().dom(),
                forall|j: int| 0 <= j < i ==> self.seid_map@[#[trigger] keys@[j]].dl_teid != teid,
            decreases n - i,
        {
            let k = keys[i];
            assert(keys@.to_set().contains(k));
            let s = self.seid_map.get(&k).unwrap();
            if s.dl_teid == teid {
                assert(self.sessions().contains_key(k) && self.sessions()[k] == *s);
                return Some(s);
            }
            i = i + 1;
        }
        proof {
            assert forall|k: u64| #[trigger] self.sessions().contains_key(k) implies self.sessions()[k].dl_teid != teid by {
                assert(keys@.to_set().contains(k));
                let j = choose|j: int| 0 <= j < n && keys@[j] == k;
                assert(self.seid_map@[keys@[j]].dl_teid != teid);
            }
        }
        None
    }

    /// The statistics row of every session, in the table's order.
    pub fn get_all_session_stats(&self) -> (stats: Vec<(u64, Option<[u8; 4]>, u64, u64, u64, u64)>)
        ensures
            exists|ks: Seq<u64>|
                #![trigger ks.to_set()]
                ks.no_duplicates() && ks.to_set() == self.sessions().dom() && stats@.len() == ks.len() && forall|i: int|
                    0 <= i < ks.len() ==> #[trigger] stats@[i] == session_stat(self.sessions()[ks[i]]),
    {
        let keys = self.seids();
        let n = keys.len();
        let mut stats: Vec<(u64, Option<[u8; 4]>, u64, u64, u64, u64)> = Vec::new();
        let mut i: usize = 0;
        while i < n
            invariant
                n == keys@.len(),
                i <= n,
                keys@.to_set() == self.sessions().dom(),
                stats@.len() == i,
                forall|j: int| 0 <= j < i ==> #[trigger] stats@[j] == session_stat(self.sessions()[keys@[j]]),
            decreases n - i,
        {
            let k = keys[i];
            assert(keys@.to_set().contains(k));
            let s = self.seid_map.get(&k).unwrap();
            stats.push((s.upf_seid, s.ue_ipv4, s.ul_packets, s.dl_packets, s.ul_bytes, s.dl_bytes));
            i = i + 1;
        }
        assert(keys@.to_set() == self.sessions().dom());
        stats
    }

    /// Takes a session out of the table by SEID, leaving the TEID and
    /// address indexes as they are (see `put_session`).
    pub(crate) fn take_session(&mut self, seid: u64) -> (r: Option<DataPlaneSession>)
        ensures
            r == (if old(self).sessions().contains_key(seid) {
                Some(old(self).sessions()[seid])
            } else {
                None
            }),
            final(self).sessions() == old(self).sessions().remove(seid),
            final(self).ul_index() == old(self).ul_index(),
            final(self).ip_index() == old(self).ip_index(),
            final(self).teid_counter() == old(self).teid_counter(),
            final(self).seid_counter() == old(self).seid_counter(),
    {
        self.seid_map.remove(&seid)
    }

    /// Puts a session into the table under a SEID, leaving the indexes as
    /// they are.
    pub(crate) fn put_session(&mut self, seid: u64, s: DataPlaneSession)
        ensures
            final(self).sessions() == old(self).sessions().insert(seid, s),
            final(self).ul_index() == old(self).ul_index(),
            final(self).ip_index() == old(self).ip_index(),
            final(self).teid_counter() == old(self).teid_counter(),
            final(self).seid_counter() == old(self).seid_counter(),
    {
        self.seid_map.insert(seid, s);
    }

    /// The number of sessions.
    pub fn session_count(&self) -> (n: usize)
        ensures
            n == self.sessions().len(),
    {
        self.seid_map.len()
    }
}

/// The steps of `add_session`: the session under the SEID leaves the
/// table (`m1`), the TEID entry goes (`m2`), then the new entries and the
/// session go in (`m3`).
pub open spec fn add_steps(
    m0: SessionManager,
    m1: SessionManager,
    m2: SessionManager,
    m3: SessionManager,
    s: DataPlaneSession,
) -> bool {
    let seid = s.upf_seid;
    &&& m1.sessions() == m0.sessions().remove(seid)
    &&& m0.sessions().contains_key(seid) ==> m1.ul_slots() == retired_ul(m0.ul_slots(), m0.sessions()[seid], seid)
        && m1.ip_slots() == retired_ip(m0.ul_slots(), m0.ip_slots(), m0.sessions()[seid], seid)
    &&& !m0.sessions().contains_key(seid) ==> m1.ul_slots() == m0.ul_slots() && m1.ip_slots() == m0.ip_slots()
    &&& m2.sessions() == m1.sessions()
    &&& m2.ul_slots() == m1.ul_slots().remove(s.ul_teid)
    &&& m2.ip_slots() == moved_ip(m1.ul_slots(), m1.ip_slots(), s.ul_teid)
    &&& m3.sessions() == m2.sessions().insert(seid, s)
    &&& m3.ul_slots() == m2.ul_slots().insert(s.ul_teid, UlSlot::Live(seid))
    &&& m3.ip_slots() == match s.ue_ipv4 {
        Some(a) => m2.ip_slots().insert(ip_key(a), IpSlot::Live(seid)),
        None => m2.ip_slots(),
    }
}

proof fn lemma_add_indexes(
    m0: SessionManager,
    m1: SessionManager,
    m2: SessionManager,
    m3: SessionManager,
    s: DataPlaneSession,
)
    requires
        add_steps(m0, m1, m2, m3, s),
    ensures
        m3.ul_index() == unlinked_ul(m0, s.upf_seid).insert(s.ul_teid, s.upf_seid),
        m3.ip_index() == (match s.ue_ipv4 {
            Some(a) => unlinked_ip(m0, s.upf_seid).insert(ip_key(a), s.upf_seid),
            None => unlinked_ip(m0, s.upf_seid),
        }),
{
    let seid = s.upf_seid;
    let eu = unlinked_ul(m0, seid).insert(s.ul_teid, seid);
    let has = m0.sessions().contains_key(seid);
    let o = m0.sessions()[seid];
    assert forall|t: u32| #[trigger] m3.ul_index().contains_key(t) == eu.contains_key(t) && (eu.contains_key(t)
        ==> m3.ul_index()[t] == eu[t]) by {
        if t != s.ul_teid {
            assert(m3.ul_slots().contains_key(t) == m1.ul_slots().contains_key(t));
            if has {
                assert(m1.ul_slots() == retired_ul(m0.ul_slots(), o, seid));
                if t == o.ul_teid && m0.ul_slots().contains_key(t) && m0.ul_slots()[t] == UlSlot::Live(seid) {
                    assert(m1.ul_slots()[t] == UlSlot::Stale(o));
                    assert(!m3.ul_index().contains_key(t));
                    assert(m0.ul_index().contains_key(t) && m0.ul_index()[t] == seid);
                    assert(!eu.contains_key(t));
                } else {
                    assert(m1.ul_slots().contains_key(t) == m0.ul_slots().contains_key(t));
                    if m0.ul_slots().contains_key(t) {
                        assert(m3.ul_slots()[t] == m0.ul_slots()[t]);
                    }
                    if t == o.ul_teid && m0.ul_index().contains_key(t) {
                        assert(m0.ul_index()[t] != seid);
                    }
                }
            } else {
                if m0.ul_slots().contains_key(t) {
                    assert(m3.ul_slots()[t] == m0.ul_slots()[t]);
                }
            }
        } else {
            assert(m3.ul_slots()[t] == UlSlot::Live(seid));
        }
    }
    assert(m3.ul_index() =~= eu);
    let ei = match s.ue_ipv4 {
        Some(a) => unlinked_ip(m0, seid).insert(ip_key(a), seid),
        None => unlinked_ip(m0, seid),
    };
    assert forall|k: u32| #[trigger] m3.ip_index().contains_key(k) == ei.contains_key(k) && (ei.contains_key(k)
        ==> m3.ip_index()[k] == ei[k]) by {
        if s.ue_ipv4 matches Some(a) && k == ip_key(a) {
            assert(m3.ip_slots()[k] == IpSlot::Live(seid));
        } else {
            assert(m3.ip_slots().contains_key(k) == m2.ip_slots().contains_key(k));
            assert(m2.ip_slots().contains_key(k) == m1.ip_slots().contains_key(k));
            if m2.ip_slots().contains_key(k) {
                assert(m3.ip_slots()[k] == m2.ip_slots()[k]);
                assert((m2.ip_slots()[k] is Live) == (m1.ip_slots()[k] is Live));
                if m1.ip_slots()[k] is Live {
                    assert(m2.ip_slots()[k] == m1.ip_slots()[k]);
                }
            }
            if has {
                assert(m1.ip_slots() == retired_ip(m0.ul_slots(), m0.ip_slots(), o, seid));
                if ip_key_of_session(o) == Some(k) && m0.ip_slots().contains_key(k) && m0.ip_slots()[k] == IpSlot::Live(
                    seid,
                ) {
                    assert(!(m1.ip_slots()[k] is Live));
                    assert(m0.ip_index().contains_key(k) && m0.ip_index()[k] == seid);
                } else {
                    assert(m1.ip_slots().contains_key(k) == m0.ip_slots().contains_key(k));
                    if m0.ip_slots().contains_key(k) {
                        assert(m1.ip_slots()[k] == m0.ip_slots()[k]);
                    }
                    if ip_key_of_session(o) == Some(k) && m0.ip_index().contains_key(k) {
                        assert(m0.ip_index()[k] != seid);
                    }
                }
            } else {
                if m0.ip_slots().contains_key(k) {
                    assert(m1.ip_slots()[k] == m0.ip_slots()[k]);
                }
            }
        }
    }
    assert(m3.ip_index() =~= ei);
}

proof fn lemma_add_objects(
    m0: SessionManager,
    m1: SessionManager,
    m2: SessionManager,
    m3: SessionManager,
    s: DataPlaneSession,
)
    requires
        add_steps(m0, m1, m2, m3, s),
        m0.wf(),
    ensures
        m3.wf(),
        m3.ul_objects() == m0.ul_objects().insert(s.ul_teid, s),
        m3.ip_objects() == (match s.ue_ipv4 {
            Some(a) => m0.ip_objects().insert(ip_key(a), s),
            None => m0.ip_objects(),
        }),
{
    let seid = s.upf_seid;
    let has = m0.sessions().contains_key(seid);
    let o = m0.sessions()[seid];
    let eu = m0.ul_objects().insert(s.ul_teid, s);
    assert forall|t: u32| #[trigger] m3.ul_objects().contains_key(t) == eu.contains_key(t) && (eu.contains_key(t)
        ==> m3.ul_objects()[t] == eu[t]) by {
        if t != s.ul_teid && m0.ul_slots().contains_key(t) {
            let sl = m0.ul_slots()[t];
            if has {
                assert(m1.ul_slots() == retired_ul(m0.ul_slots(), o, seid));
            }
            if sl is Live {
                let y = sl->Live_0;
                assert(m0.sessions().contains_key(y) && m0.sessions()[y].ul_teid == t);
            }
        }
    }
    assert(m3.ul_objects() =~= eu);
    let ei = match s.ue_ipv4 {
        Some(a) => m0.ip_objects().insert(ip_key(a), s),
        None => m0.ip_objects(),
    };
    assert forall|k: u32| #[trigger] m3.ip_objects().contains_key(k) == ei.contains_key(k) && (ei.contains_key(k)
        ==> m3.ip_objects()[k] == ei[k]) by {
        lemma_add_ip_key(m0, m1, m2, m3, s, k);
    }
    assert(m3.ip_objects() =~= ei);
    lemma_add_wf(m0, m1, m2, m3, s);
}

proof fn lemma_add_ip_key(
    m0: SessionManager,
    m1: SessionManager,
    m2: SessionManager,
    m3: SessionManager,
    s: DataPlaneSession,
    k: u32,
)
    requires
        add_steps(m0, m1, m2, m3, s),
        m0.wf(),
    ensures
        ({
            let ei = match s.ue_ipv4 {
                Some(a) => m0.ip_objects().insert(ip_key(a), s),
                None => m0.ip_objects(),
            };
            m3.ip_objects().contains_key(k) == ei.contains_key(k) && (ei.contains_key(k) ==> m3.ip_objects()[k]
                == ei[k])
        }),
{
    let seid = s.upf_seid;
    let has = m0.sessions().contains_key(seid);
    let o = m0.sessions()[seid];
    if has {
        assert(m1.ul_slots() == retired_ul(m0.ul_slots(), o, seid));
        assert(m1.ip_slots() == retired_ip(m0.ul_slots(), m0.ip_slots(), o, seid));
    }
    if s.ue_ipv4 matches Some(a) && k == ip_key(a) {
    } else if m0.ip_slots().contains_key(k) {
        let sl = m0.ip_slots()[k];
        match sl {
            IpSlot::Live(y) => {
                assert(m0.sessions().contains_key(y) && ip_key_of_session(m0.sessions()[y]) == Some(k));
                if y == seid {
                    let t0 = o.ul_teid;
                    if m0.ul_slots().contains_key(t0) && m0.ul_slots()[t0] == UlSlot::Live(seid) {
                        assert(m1.ul_slots()[t0] == UlSlot::Stale(o));
                        assert(m1.ip_slots()[k] == IpSlot::StaleAt(t0));
                    } else {
                        assert(m1.ip_slots()[k] == IpSlot::Stale(o));
                    }
                }
            },
            IpSlot::Stale(_) => {},
            IpSlot::StaleAt(t2) => {
                assert(m0.ul_slots().contains_key(t2) && m0.ul_slots()[t2] is Stale);
                assert(m1.ul_slots()[t2] == m0.ul_slots()[t2]);
                assert(m1.ip_slots()[k] == m0.ip_slots()[k]);
            },
        }
    } else {
        if has {
            assert(!m1.ip_slots().contains_key(k));
        }
    }
}

proof fn lemma_add_wf(
    m0: SessionManager,
    m1: SessionManager,
    m2: SessionManager,
    m3: SessionManager,
    s: DataPlaneSession,
)
    requires
        add_steps(m0, m1, m2, m3, s),
        m0.wf(),
    ensures
        m3.wf(),
{
    let seid = s.upf_seid;
    let has = m0.sessions().contains_key(seid);
    let o = m0.sessions()[seid];
    if has {
        assert(m1.ul_slots() == retired_ul(m0.ul_slots(), o, seid));
        assert(m1.ip_slots() == retired_ip(m0.ul_slots(), m0.ip_slots(), o, seid));
    }
    assert forall|t: u32|
        #![trigger m3.ul_slots()[t]]
        m3.ul_slots().contains_key(t) && m3.ul_slots()[t] is Live implies {
            let x = m3.ul_slots()[t]->Live_0;
            m3.sessions().contains_key(x) && m3.sessions()[x].ul_teid == t
        } by {
        if t != s.ul_teid {
            assert(m0.ul_slots().contains_key(t) && m0.ul_slots()[t] is Live);
            let y = m0.ul_slots()[t]->Live_0;
            assert(m0.sessions().contains_key(y) && m0.sessions()[y].ul_teid == t);
        }
    }
    assert forall|k: u32|
        #![trigger m3.ip_slots()[k]]
        m3.ip_slots().contains_key(k) && m3.ip_slots()[k] is Live implies {
            let x = m3.ip_slots()[k]->Live_0;
            m3.sessions().contains_key(x) && ip_key_of_session(m3.sessions()[x]) == Some(k)
        } by {
        if !(s.ue_ipv4 matches Some(a) && k == ip_key(a)) {
            assert(m0.ip_slots().contains_key(k) && m0.ip_slots()[k] is Live);
            let y = m0.ip_slots()[k]->Live_0;
            assert(m0.sessions().contains_key(y) && ip_key_of_session(m0.sessions()[y]) == Some(k));
        }
    }
    assert forall|k: u32|
        #![trigger m3.ip_slots()[k]]
        m3.ip_slots().contains_key(k) && m3.ip_slots()[k] is StaleAt implies {
            let t = m3.ip_slots()[k]->StaleAt_0;
            m3.ul_slots().contains_key(t) && m3.ul_slots()[t] is Stale && ip_key_of_session(m3.ul_slots()[t]->Stale_0)
                == Some(k)
        } by {
        let t = m3.ip_slots()[k]->StaleAt_0;
        assert(m1.ip_slots().contains_key(k) && m1.ip_slots()[k] == IpSlot::StaleAt(t));
        if m0.ip_slots()[k] is StaleAt {
            assert(m0.ul_slots().contains_key(t) && m0.ul_slots()[t] is Stale);
            assert(m1.ul_slots()[t] == m0.ul_slots()[t]);
        } else {
            assert(has);
            assert(m1.ul_slots()[t] == UlSlot::Stale(o));
        }
    }
}

/// The steps of `detach_session` on a session of the table.
pub open spec fn detach_steps(
    m0: SessionManager,
    m1: SessionManager,
    m2: SessionManager,
    m3: SessionManager,
    seid: u64,
) -> bool {
    let s = m0.sessions()[seid];
    &&& m0.sessions().contains_key(seid)
    &&& m1.sessions() == m0.sessions().remove(seid)
    &&& m1.ul_slots() == m0.ul_slots()
    &&& m1.ip_slots() == m0.ip_slots()
    &&& m2.sessions() == m1.sessions()
    &&& m2.ul_slots() == m1.ul_slots().remove(s.ul_teid)
    &&& m2.ip_slots() == moved_ip(m1.ul_slots(), m1.ip_slots(), s.ul_teid)
    &&& m3.sessions() == m2.sessions()
    &&& m3.ul_slots() == m2.ul_slots()
    &&& m3.ip_slots() == match s.ue_ipv4 {
        Some(a) => m2.ip_slots().remove(ip_key(a)),
        None => m2.ip_slots(),
    }
}

proof fn lemma_detach(m0: SessionManager, m1: SessionManager, m2: SessionManager, m3: SessionManager, seid: u64)
    requires
        detach_steps(m0, m1, m2, m3, seid),
    ensures
        ({
            let s = m0.sessions()[seid];
            &&& m3.ul_index() == m0.ul_index().remove(s.ul_teid)
            &&& m3.ip_index() == (match s.ue_ipv4 {
                Some(a) => m0.ip_index().remove(ip_key(a)),
                None => m0.ip_index(),
            })
            &&& m0.wf() ==> {
                &&& m3.wf()
                &&& m3.ul_objects() == m0.ul_objects().remove(s.ul_teid)
                &&& m3.ip_objects() == (match s.ue_ipv4 {
                    Some(a) => m0.ip_objects().remove(ip_key(a)),
                    None => m0.ip_objects(),
                })
            }
        }),
{
    let s = m0.sessions()[seid];
    assert(m3.ul_index() =~= m0.ul_index().remove(s.ul_teid));
    let ei = match s.ue_ipv4 {
        Some(a) => m0.ip_index().remove(ip_key(a)),
        None => m0.ip_index(),
    };
    assert forall|k: u32| #[trigger] m3.ip_index().contains_key(k) == ei.contains_key(k) && (ei.contains_key(k)
        ==> m3.ip_index()[k] == ei[k]) by {}
    assert(m3.ip_index() =~= ei);
    if m0.wf() {
        let eu = m0.ul_objects().remove(s.ul_teid);
        assert forall|t: u32| #[trigger] m3.ul_objects().contains_key(t) == eu.contains_key(t) && (eu.contains_key(
            t,
        ) ==> m3.ul_objects()[t] == eu[t]) by {
            if t != s.ul_teid && m0.ul_slots().contains_key(t) && m0.ul_slots()[t] is Live {
                let y = m0.ul_slots()[t]->Live_0;
                assert(m0.sessions().contains_key(y) && m0.sessions()[y].ul_teid == t);
            }
        }
        assert(m3.ul_objects() =~= eu);
        let eo = match s.ue_ipv4 {
            Some(a) => m0.ip_objects().remove(ip_key(a)),
            None => m0.ip_objects(),
        };
        assert forall|k: u32| #[trigger] m3.ip_objects().contains_key(k) == eo.contains_key(k) && (eo.contains_key(
            k,
        ) ==> m3.ip_objects()[k] == eo[k]) by {
            if !(s.ue_ipv4 matches Some(a) && k == ip_key(a)) && m0.ip_slots().contains_key(k) {
                match m0.ip_slots()[k] {
                    IpSlot::Live(y) => {
                        assert(m0.sessions().contains_key(y) && ip_key_of_session(m0.sessions()[y]) == Some(k));
                    },
                    IpSlot::Stale(_) => {},
                    IpSlot::StaleAt(t2) => {
                        assert(m0.ul_slots().contains_key(t2) && m0.ul_slots()[t2] is Stale);
                    },
                }
            }
        }
        assert(m3.ip_objects() =~= eo);
        assert forall|t: u32|
            #![trigger m3.ul_slots()[t]]
            m3.ul_slots().contains_key(t) && m3.ul_slots()[t] is Live implies {
                let x = m3.ul_slots()[t]->Live_0;
                m3.sessions().contains_key(x) && m3.sessions()[x].ul_teid == t
            } by {
            let y = m0.ul_slots()[t]->Live_0;
            assert(m0.sessions().contains_key(y) && m0.sessions()[y].ul_teid == t);
        }
        assert forall|k: u32|
            #![trigger m3.ip_slots()[k]]
            m3.ip_slots().contains_key(k) && m3.ip_slots()[k] is Live implies {
                let x = m3.ip_slots()[k]->Live_0;
                m3.sessions().contains_key(x) && ip_key_of_session(m3.sessions()[x]) == Some(k)
            } by {
            assert(m0.ip_slots().contains_key(k) && m0.ip_slots()[k] is Live);
            let y = m0.ip_slots()[k]->Live_0;
            assert(m0.sessions().contains_key(y) && ip_key_of_session(m0.sessions()[y]) == Some(k));
        }
        assert forall|k: u32|
            #![trigger m3.ip_slots()[k]]
            m3.ip_slots().contains_key(k) && m3.ip_slots()[k] is StaleAt implies {
                let t = m3.ip_slots()[k]->StaleAt_0;
                m3.ul_slots().contains_key(t) && m3.ul_slots()[t] is Stale && ip_key_of_session(
                    m3.ul_slots()[t]->Stale_0,
                ) == Some(k)
            } by {
            assert(m0.ip_slots().contains_key(k) && m0.ip_slots()[k] is StaleAt);
        }
    }
}

proof fn lemma_remove_none(m0: SessionManager, m1: SessionManager, t: u32)
    requires
        !m0.ul_slots().contains_key(t),
        m1.sessions() == m0.sessions(),
        m1.ul_slots() == m0.ul_slots().remove(t),
        m1.ip_slots() == moved_ip(m0.ul_slots(), m0.ip_slots(), t),
    ensures
        m0.wf() ==> m1.wf(),
        m0.wf() ==> m0.ul_objects().get(t) is None,
        m1.sessions() == m0.sessions(),
        m1.ul_objects() == m0.ul_objects().remove(t),
        m1.ip_objects() == m0.ip_objects(),
{
    assert(m1.ul_slots() =~= m0.ul_slots());
    assert(m1.ip_slots() =~= m0.ip_slots());
    assert(m1.ul_objects() =~= m0.ul_objects().remove(t));
    assert(m1.ip_objects() =~= m0.ip_objects());
}

/// The steps of `remove_session` when an entry is under the TEID.
pub open spec fn remove_steps(
    m0: SessionManager,
    m1: SessionManager,
    m2: SessionManager,
    m3: SessionManager,
    m4: SessionManager,
    t: u32,
) -> bool {
    let slot = m0.ul_slots()[t];
    let x = match slot {
        UlSlot::Live(x) => x,
        UlSlot::Stale(o) => o.upf_seid,
    };
    let found = m1.sessions().contains_key(x);
    let n = m1.sessions()[x];
    let ip = match slot {
        UlSlot::Live(_) => if found {
            n.ue_ipv4
        } else {
            None
        },
        UlSlot::Stale(o) => o.ue_ipv4,
    };
    &&& m0.ul_slots().contains_key(t)
    &&& m1.sessions() == m0.sessions()
    &&& m1.ul_slots() == m0.ul_slots().remove(t)
    &&& m1.ip_slots() == moved_ip(m0.ul_slots(), m0.ip_slots(), t)
    &&& m2.sessions() == m1.sessions().remove(x)
    &&& m2.ul_slots() == m1.ul_slots()
    &&& m2.ip_slots() == m1.ip_slots()
    &&& m3.sessions() == m2.sessions()
    &&& found ==> m3.ul_slots() == retired_ul(m2.ul_slots(), n, x) && m3.ip_slots() == retired_ip(
        m2.ul_slots(),
        m2.ip_slots(),
        n,
        x,
    )
    &&& !found ==> m3.ul_slots() == m2.ul_slots() && m3.ip_slots() == m2.ip_slots()
    &&& m4.sessions() == m3.sessions()
    &&& m4.ul_slots() == m3.ul_slots()
    &&& m4.ip_slots() == match ip {
        Some(a) => m3.ip_slots().remove(ip_key(a)),
        None => m3.ip_slots(),
    }
}

proof fn lemma_remove_found(
    m0: SessionManager,
    m1: SessionManager,
    m2: SessionManager,
    m3: SessionManager,
    m4: SessionManager,
    t: u32,
)
    requires
        remove_steps(m0, m1, m2, m3, m4, t),
        m0.wf(),
    ensures
        m4.wf(),
        m0.ul_objects().contains_key(t),
        ({
            let f = m0.ul_objects()[t];
            &&& m4.sessions() == m0.sessions().remove(f.upf_seid)
            &&& m4.ul_objects() == m0.ul_objects().remove(t)
            &&& m4.ip_objects() == match f.ue_ipv4 {
                Some(a) => m0.ip_objects().remove(ip_key(a)),
                None => m0.ip_objects(),
            }
        }),
{
    let slot = m0.ul_slots()[t];
    if slot is Live {
        let x = slot->Live_0;
        assert(m0.sessions().contains_key(x) && m0.sessions()[x].ul_teid == t);
        assert(m0.sessions()[x].upf_seid == x);
    }
    let f = m0.ul_objects()[t];
    assert(m0.ul_objects().contains_key(t));
    lemma_remove_found_objects(m0, m1, m2, m3, m4, t);
}

proof fn lemma_remove_found_objects(
    m0: SessionManager,
    m1: SessionManager,
    m2: SessionManager,
    m3: SessionManager,
    m4: SessionManager,
    t: u32,
)
    requires
        remove_steps(m0, m1, m2, m3, m4, t),
        m0.wf(),
        m0.ul_objects().contains_key(t),
    ensures
        m4.wf(),
        ({
            let f = m0.ul_objects()[t];
            &&& m4.sessions() == m0.sessions().remove(f.upf_seid)
            &&& m4.ul_objects() == m0.ul_objects().remove(t)
            &&& m4.ip_objects() == match f.ue_ipv4 {
                Some(a) => m0.ip_objects().remove(ip_key(a)),
                None => m0.ip_objects(),
            }
        }),
{
    let slot = m0.ul_slots()[t];
    let x = match slot {
        UlSlot::Live(x) => x,
        UlSlot::Stale(o) => o.upf_seid,
    };
    let found = m1.sessions().contains_key(x);
    let n = m1.sessions()[x];
    let f = m0.ul_objects()[t];
    if slot is Live {
        assert(m0.sessions().contains_key(x) && m0.sessions()[x].ul_teid == t);
        assert(f == n);
    }
    if found {
        assert(n.upf_seid == x);
    }
    assert(m4.sessions() =~= m0.sessions().remove(f.upf_seid));
    let eu = m0.ul_objects().remove(t);
    assert forall|u: u32| #[trigger] m4.ul_objects().contains_key(u) == eu.contains_key(u) && (eu.contains_key(u)
        ==> m4.ul_objects()[u] == eu[u]) by {
        if u != t && m0.ul_slots().contains_key(u) && m0.ul_slots()[u] is Live {
            let y = m0.ul_slots()[u]->Live_0;
            assert(m0.sessions().contains_key(y) && m0.sessions()[y].ul_teid == u);
        }
    }
    assert(m4.ul_objects() =~= eu);
    let eo = match f.ue_ipv4 {
        Some(a) => m0.ip_objects().remove(ip_key(a)),
        None => m0.ip_objects(),
    };
    assert forall|k: u32| #[trigger] m4.ip_objects().contains_key(k) == eo.contains_key(k) && (eo.contains_key(k)
        ==> m4.ip_objects()[k] == eo[k]) by {
        if !(f.ue_ipv4 matches Some(a) && k == ip_key(a)) && m0.ip_slots().contains_key(k) {
            match m0.ip_slots()[k] {
                IpSlot::Live(y) => {
                    assert(m0.sessions().contains_key(y) && ip_key_of_session(m0.sessions()[y]) == Some(k));
                    if y == x {
                        assert(found);
                        let t0 = n.ul_teid;
                        if m2.ul_slots().contains_key(t0) && m2.ul_slots()[t0] == UlSlot::Live(x) {
                            assert(m3.ul_slots()[t0] == UlSlot::Stale(n));
                        }
                    }
                },
                IpSlot::Stale(_) => {},
                IpSlot::StaleAt(t2) => {
                    assert(m0.ul_slots().contains_key(t2) && m0.ul_slots()[t2] is Stale);
                },
            }
        }
    }
    assert(m4.ip_objects() =~= eo);
    assert forall|u: u32|
        #![trigger m4.ul_slots()[u]]
        m4.ul_slots().contains_key(u) && m4.ul_slots()[u] is Live implies {
            let z = m4.ul_slots()[u]->Live_0;
            m4.sessions().contains_key(z) && m4.sessions()[z].ul_teid == u
        } by {
        let y = m0.ul_slots()[u]->Live_0;
        assert(m0.sessions().contains_key(y) && m0.sessions()[y].ul_teid == u);
    }
    assert forall|k: u32|
        #![trigger m4.ip_slots()[k]]
        m4.ip_slots().contains_key(k) && m4.ip_slots()[k] is Live implies {
            let z = m4.ip_slots()[k]->Live_0;
            m4.sessions().contains_key(z) && ip_key_of_session(m4.sessions()[z]) == Some(k)
        } by {
        assert(m0.ip_slots().contains_key(k) && m0.ip_slots()[k] is Live);
        let y = m0.ip_slots()[k]->Live_0;
        assert(m0.sessions().contains_key(y) && ip_key_of_session(m0.sessions()[y]) == Some(k));
    }
    assert forall|k: u32|
        #![trigger m4.ip_slots()[k]]
        m4.ip_slots().contains_key(k) && m4.ip_slots()[k] is StaleAt implies {
            let u = m4.ip_slots()[k]->StaleAt_0;
            m4.ul_slots().contains_key(u) && m4.ul_slots()[u] is Stale && ip_key_of_session(m4.ul_slots()[u]->Stale_0)
                == Some(k)
        } by {
        let u = m4.ip_slots()[k]->StaleAt_0;
        if m0.ip_slots().contains_key(k) && m0.ip_slots()[k] is StaleAt {
            assert(m0.ul_slots().contains_key(m0.ip_slots()[k]->StaleAt_0));
        } else {
            assert(found);
            assert(m3.ul_slots()[u] == UlSlot::Stale(n));
        }
    }
}

/// After a session is added, each of its keys finds it.
pub proof fn lemma_added_session_is_found(before: SessionManager, after: SessionManager, s: DataPlaneSession)
    requires
        after.sessions() == before.sessions().insert(s.upf_seid, s),
        after.ul_index() == unlinked_ul(before, s.upf_seid).insert(s.ul_teid, s.upf_seid),
        after.ip_index() == (match s.ue_ipv4 {
            Some(a) => unlinked_ip(before, s.upf_seid).insert(ip_key(a), s.upf_seid),
            None => unlinked_ip(before, s.upf_seid),
        }),
    ensures
        after.sessions().contains_key(s.upf_seid) && after.sessions()[s.upf_seid] == s,
        through(after.ul_index(), after.sessions(), s.ul_teid) == Some(s),
        s.ue_ipv4 matches Some(a) ==> through(after.ip_index(), after.sessions(), ip_key(a)) == Some(s),
{
}

/// After a session is removed by its SEID, no key finds it: not its SEID,
/// not its uplink TEID, not its UE address.
pub proof fn lemma_removed_session_is_gone(before: SessionManager, after: SessionManager, seid: u64)
    requires
        before.sessions().contains_key(seid),
        after.sessions() == before.sessions().remove(seid),
        after.ul_index() == before.ul_index().remove(before.sessions()[seid].ul_teid),
        after.ip_index() == (match before.sessions()[seid].ue_ipv4 {
            Some(a) => before.ip_index().remove(ip_key(a)),
            None => before.ip_index(),
        }),
    ensures
        !after.sessions().contains_key(seid),
        through(after.ul_index(), after.sessions(), before.sessions()[seid].ul_teid) is None,
        before.sessions()[seid].ue_ipv4 matches Some(a) ==> through(after.ip_index(), after.sessions(), ip_key(a)) is None,
{
}

} // verus!
