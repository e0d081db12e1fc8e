//! PFCP parsing on the UPF side (TS 29.244): the message header, the
//! type-length-value walk over a payload, and the IE values that the UPF
//! reads out of SMF requests.

use vstd::prelude::*;
use crate::wire::{
    u16_of, u32_of, u16_at, u32_at, u64_at, read_u16, read_u32, read_u64, read_arr4, read_arr16, tlv, lemma_u16_roundtrip,
};
use crate::text::{lossy_string, utf8_lossy};

verus! {

/// An information element as the parser sees it: its type and its value.
pub type IeView = (u16, Seq<u8>);

/// The IEs of a payload, read front to back: each is a 16-bit type, a
/// 16-bit length and that many octets of value. The walk stops at the
/// first IE whose header or value does not fit in what is left.
pub open spec fn parse_ies(data: Seq<u8>) -> Seq<IeView>
    decreases data.len(),
{
    if data.len() < 4 {
        Seq::empty()
    } else {
        let n = u16_at(data, 2) as int;
        if data.len() - 4 < n {
            Seq::empty()
        } else {
            seq![(u16_at(data, 0), data.subrange(4, 4 + n))] + parse_ies(data.subrange(4 + n, data.len() as int))
        }
    }
}

/// Reading IEs gives back an IE written in TLV form, then the IEs of what
/// follows it.
pub proof fn lemma_parse_tlv(t: u16, v: Seq<u8>, rest: Seq<u8>)
    requires
        v.len() <= 0xFFFF,
    ensures
        parse_ies(tlv(t, v) + rest) == seq![(t, v)] + parse_ies(rest),
{
    let d = tlv(t, v) + rest;
    lemma_u16_roundtrip(t);
    lemma_u16_roundtrip(v.len() as u16);
    assert(u16_at(d, 0) == t);
    assert(u16_at(d, 2) == v.len());
    assert(d.subrange(4, 4 + v.len() as int) =~= v);
    assert(d.subrange(4 + v.len() as int, d.len() as int) =~= rest);
}

/// IEs written one after another in TLV form.
pub open spec fn tlvs(ies: Seq<IeView>) -> Seq<u8>
    decreases ies.len(),
{
    if ies.len() == 0 {
        Seq::empty()
    } else {
        tlv(ies[0].0, ies[0].1) + tlvs(ies.drop_first())
    }
}

/// IEs written one after another in TLV form, each value fitting the
/// 16-bit length field, read back as themselves, in order.
pub proof fn lemma_parse_tlvs(ies: Seq<IeView>)
    requires
        forall|i: int| 0 <= i < ies.len() ==> (#[trigger] ies[i]).1.len() <= 0xFFFF,
    ensures
        parse_ies(tlvs(ies)) == ies,
    decreases ies.len(),
{
    if ies.len() == 0 {
        assert(parse_ies(Seq::<u8>::empty()) =~= Seq::<IeView>::empty());
    } else {
        let rest = ies.drop_first();
        assert forall|i: int| 0 <= i < rest.len() implies (#[trigger] rest[i]).1.len() <= 0xFFFF by {
            assert(rest[i] == ies[i + 1]);
        }
        lemma_parse_tlvs(rest);
        assert(ies[0].1.len() <= 0xFFFF);
        lemma_parse_tlv(ies[0].0, ies[0].1, tlvs(rest));
        assert(seq![(ies[0].0, ies[0].1)] + rest =~= ies);
    }
}

/// The IE list parser reads IEs written one after another in TLV form
/// back as themselves: as many as were written, each with its type, its
/// length and its value, in order.
pub proof fn lemma_parse_all_reads_tlvs(ies: Seq<IeView>, parsed: Seq<ParsedIe>)
    requires
        forall|i: int| 0 <= i < ies.len() ==> (#[trigger] ies[i]).1.len() <= 0xFFFF,
        ie_views(parsed) == parse_ies(tlvs(ies)),
        forall|i: int| 0 <= i < parsed.len() ==> (#[trigger] parsed[i]).length == parsed[i].value@.len(),
    ensures
        parsed.len() == ies.len(),
        forall|i: int|
            0 <= i < ies.len() ==> (#[trigger] parsed[i]).ie_type == ies[i].0 && parsed[i].length == ies[i].1.len()
                && parsed[i].value@ == ies[i].1,
{
    lemma_parse_tlvs(ies);
    assert forall|i: int| 0 <= i < ies.len() implies (#[trigger] parsed[i]).ie_type == ies[i].0 && parsed[i].length
        == ies[i].1.len() && parsed[i].value@ == ies[i].1 by {
        assert(ie_views(parsed)[i] == ies[i]);
    }
}

/// The value of the first IE of type `t`, if there is one.
pub open spec fn first_of(ies: Seq<IeView>, t: u16) -> Option<Seq<u8>>
    decreases ies.len(),
{
    if ies.len() == 0 {
        None
    } else if ies[0].0 == t {
        Some(ies[0].1)
    } else {
        first_of(ies.drop_first(), t)
    }
}

/// The values of all IEs of type `t`, in order.
pub open spec fn all_of(ies: Seq<IeView>, t: u16) -> Seq<Seq<u8>>
    decreases ies.len(),
{
    if ies.len() == 0 {
        Seq::empty()
    } else {
        all_of(ies.drop_last(), t) + if ies.last().0 == t {
            seq![ies.last().1]
        } else {
            Seq::empty()
        }
    }
}

/// Whether the bit (or any of the bits) of `mask` is set in `b`.
pub open spec fn has_bit(b: u8, mask: u8) -> bool {
    b & mask != 0
}

/// Parsed PFCP message header (TS 29.244 7.2.2).
#[derive(Debug, Clone, Default)]
pub struct ParsedPfcpHeader {
    pub version: u8,
    pub msg_type: u8,
    pub length: u16,
    pub seid_present: bool,
    pub seid: u64,
    pub sequence_number: u32,
}

/// The header length: 16 octets with a SEID, 8 without.
pub open spec fn header_len(data: Seq<u8>) -> int {
    if has_bit(data[0], 0x01) {
        16
    } else {
        8
    }
}

/// Why a header cannot be read, if it cannot: too short, a version other
/// than 1, or a SEID flag with no room for the SEID.
pub open spec fn header_error(data: Seq<u8>) -> Option<&'static str> {
    if data.len() < 8 {
        Some("PFCP message too short")
    } else if data[0] >> 5u8 != 1 {
        Some("Unsupported PFCP version")
    } else if has_bit(data[0], 0x01) && data.len() < 16 {
        Some("PFCP message too short for SEID")
    } else {
        None
    }
}

impl ParsedPfcpHeader {
    /// Parses the header and returns it with the payload that follows.
    pub fn parse(data: &[u8]) -> (r: Result<(Self, &[u8]), &'static str>)
        ensures
            r is Err <==> header_error(data@) is Some,
            r matches Err(e) ==> header_error(data@) == Some(e),
            r matches Ok((h, payload)) ==> {
                let s = data@;
                let seq_at = if has_bit(s[0], 0x01) { 12int } else { 4int };
                &&& h.version == 1
                &&& h.msg_type == s[1]
                &&& h.length == u16_at(s, 2)
                &&& h.seid_present == has_bit(s[0], 0x01)
                &&& h.seid == (if has_bit(s[0], 0x01) { u64_at(s, 4) } else { 0 })
                &&& h.sequence_number == u32_of(0, s[seq_at], s[seq_at + 1], s[seq_at + 2])
                &&& payload@ == s.subrange(header_len(s), s.len() as int)
            },
    {
        if data.len() < 8 {
            return Err("PFCP message too short");
        }
        let flags = data[0];
        let version = flags >> 5u8;
        let seid_present = (flags & 0x01) != 0;
        if version != 1 {
            return Err("Unsupported PFCP version");
        }
        let msg_type = data[1];
        let length = read_u16(data, 2);
        let (seid, seq_offset) = if seid_present {
            if data.len() < 16 {
                return Err("PFCP message too short for SEID");
            }
            (read_u64(data, 4), 12usize)
        } else {
            (0u64, 4usize)
        };
        let seq_start = seq_offset;
        let sequence_number = (data[seq_start] as u32) * 0x1_0000 + (data[seq_start + 1] as u32) * 0x100
            + (data[seq_start + 2] as u32);
        let header_len: usize = if seid_present { 16 } else { 8 };
        let payload = &data[header_len..data.len()];
        Ok((ParsedPfcpHeader { version, msg_type, length, seid_present, seid, sequence_number }, payload))
    }
}

/// A parsed PFCP information element.
#[derive(Debug, Clone)]
pub struct ParsedIe {
    pub ie_type: u16,
    pub length: u16,
    pub value: Vec<u8>,
}

/// The type and value of each parsed IE.
pub open spec fn ie_views(ies: Seq<ParsedIe>) -> Seq<IeView> {
    ies.map_values(|ie: ParsedIe| (ie.ie_type, ie.value@))
}

impl ParsedIe {
    /// Parses the IEs of a payload (see `parse_ies`).
    pub fn parse_all(data: &[u8]) -> (ies: Vec<ParsedIe>)
        ensures
            ie_views(ies@) == parse_ies(data@),
            forall|i: int| 0 <= i < ies@.len() ==> (#[trigger] ies@[i]).length == ies@[i].value@.len(),
    {
        let mut ies: Vec<ParsedIe> = Vec::new();
        let mut pos: usize = 0;
        let n = data.len();
        assert(data@.subrange(0, n as int) =~= data@);
        assert(ie_views(ies@) =~= Seq::<IeView>::empty());
        while n - pos >= 4
            invariant
                n == data@.len(),
                pos <= n,
                ie_views(ies@) + parse_ies(data@.subrange(pos as int, n as int)) == parse_ies(data@),
                forall|i: int| 0 <= i < ies@.len() ==> (#[trigger] ies@[i]).length == ies@[i].value@.len(),
            decreases n - pos,
        {
            let ghost rest = data@.subrange(pos as int, n as int);
            let ie_type = read_u16(data, pos);
            let length = read_u16(data, pos + 2);
            assert(ie_type == u16_at(rest, 0));
            assert(length == u16_at(rest, 2));
            if n - (pos + 4) < length as usize {
                assert(parse_ies(rest) =~= Seq::<IeView>::empty());
                assert(ie_views(ies@) =~= ie_views(ies@) + parse_ies(rest));
                return ies;
            }
            let start = pos + 4;
            let end = start + length as usize;
            let mut value: Vec<u8> = Vec::new();
            value.extend_from_slice(&data[start..end]);
            assert(value@ =~= data@.subrange(start as int, end as int));
            let ghost before = ies@;
            let ghost item = ParsedIe { ie_type, length, value };
            ies.push(ParsedIe { ie_type, length, value });
            proof {
                assert(ies@ == before.push(item));
                assert(ie_views(ies@)[before.len() as int] == (ie_type, data@.subrange(start as int, end as int)));
                assert(rest.subrange(4, 4 + length as int) =~= data@.subrange(start as int, end as int));
                assert(rest.subrange(4 + length as int, rest.len() as int) =~= data@.subrange(end as int, n as int));
                assert(ie_views(ies@) =~= ie_views(before) + seq![(ie_type, data@.subrange(start as int, end as int))]);
            }
            pos = end;
        }
        proof {
            let rest = data@.subrange(pos as int, n as int);
            assert(parse_ies(rest) =~= Seq::<IeView>::empty());
            assert(ie_views(ies@) =~= ie_views(ies@) + parse_ies(rest));
        }
        ies
    }

    /// The first IE of the given type.
    pub fn find_ie(ies: &[ParsedIe], ie_type: u16) -> (r: Option<&ParsedIe>)
        ensures
            r is Some <==> first_of(ie_views(ies@), ie_type) is Some,
            r matches Some(ie) ==> {
                &&& ie.ie_type == ie_type
                &&& first_of(ie_views(ies@), ie_type) == Some(ie.value@)
                &&& exists|i: int| 0 <= i < ies@.len() && *ie == ies@[i]
            },
    {
        let n = ies.len();
        let mut i: usize = 0;
        assert(ie_views(ies@).skip(0) =~= ie_views(ies@));
        while i < n
            invariant
                n == ies@.len(),
                i <= n,
                first_of(ie_views(ies@), ie_type) == first_of(ie_views(ies@).skip(i as int), ie_type),
            decreases n - i,
        {
            proof {
                assert(ie_views(ies@).skip(i as int).drop_first() =~= ie_views(ies@).skip(i + 1));
            }
            if ies[i].ie_type == ie_type {
                return Some(&ies[i]);
            }
            i = i + 1;
        }
        None
    }

    /// All IEs of the given type, in order.
    pub fn find_all_ies(ies: &[ParsedIe], ie_type: u16) -> (r: Vec<&ParsedIe>)
        ensures
            r@.map_values(|ie: &ParsedIe| ie.value@) == all_of(ie_views(ies@), ie_type),
            forall|k: int| 0 <= k < r@.len() ==> (#[trigger] r@[k]).ie_type == ie_type,
    {
        let n = ies.len();
        let mut out: Vec<&ParsedIe> = Vec::new();
        let mut i: usize = 0;
        while i < n
            invariant
                n == ies@.len(),
                i <= n,
                out@.map_values(|ie: &ParsedIe| ie.value@) == all_of(ie_views(ies@).take(i as int), ie_type),
                forall|k: int| 0 <= k < out@.len() ==> (#[trigger] out@[k]).ie_type == ie_type,
            decreases n - i,
        {
            proof {
                assert(ie_views(ies@).take(i + 1).drop_last() =~= ie_views(ies@).take(i as int));
            }
            if ies[i].ie_type == ie_type {
                out.push(&ies[i]);
            }
            proof {
                assert(out@.map_values(|ie: &ParsedIe| ie.value@) =~= all_of(ie_views(ies@).take(i + 1), ie_type));
            }
            i = i + 1;
        }
        assert(ie_views(ies@).take(n as int) =~= ie_views(ies@));
        out
    }
}

/// The view of an optional IPv4 address.
pub open spec fn v4_view(a: Option<[u8; 4]>) -> Option<Seq<u8>> {
    match a {
        Some(x) => Some(x@),
        None => None,
    }
}

/// The view of an optional IPv6 address.
pub open spec fn v6_view(a: Option<[u8; 16]>) -> Option<Seq<u8>> {
    match a {
        Some(x) => Some(x@),
        None => None,
    }
}

/// `n` octets at `off` when `present`.
pub open spec fn field_at(d: Seq<u8>, present: bool, off: int, n: int) -> Option<Seq<u8>> {
    if present {
        Some(d.subrange(off, off + n))
    } else {
        None
    }
}

/// `n` when `present`, else 0.
pub open spec fn width(present: bool, n: int) -> int {
    if present {
        n
    } else {
        0
    }
}

/// Parsed F-SEID (TS 29.244 8.2.37).
#[derive(Debug, Clone, Copy, Default)]
pub struct ParsedFSeid {
    pub seid: u64,
    pub ipv4: Option<[u8; 4]>,
    pub ipv6: Option<[u8; 16]>,
}

/// Why an F-SEID value cannot be read, if it cannot.
pub open spec fn f_seid_error(d: Seq<u8>) -> Option<&'static str> {
    if d.len() == 0 {
        Some("F-SEID IE empty")
    } else if d.len() < 9 {
        Some("F-SEID too short for SEID")
    } else if has_bit(d[0], 0x02) && d.len() < 13 {
        Some("F-SEID too short for IPv4")
    } else if has_bit(d[0], 0x01) && d.len() < 9 + width(has_bit(d[0], 0x02), 4) + 16 {
        Some("F-SEID too short for IPv6")
    } else {
        None
    }
}

/// What a parsed F-SEID holds of the value it was read from.
pub open spec fn f_seid_fields(p: ParsedFSeid, data: Seq<u8>) -> bool {
    let d = data;
    let v4 = has_bit(d[0], 0x02);
    let v6 = has_bit(d[0], 0x01);
    &&& p.seid == u64_at(d, 1)
    &&& v4_view(p.ipv4) == field_at(d, v4, 9, 4)
    &&& v6_view(p.ipv6) == field_at(d, v6, 9 + width(v4, 4), 16)
}

impl ParsedFSeid {
    /// Parses an F-SEID value: flags (V6 = 0x01, V4 = 0x02), the SEID, then
    /// the IPv4 and the IPv6 address when flagged.
    pub fn parse(data: &[u8]) -> (r: Result<Self, &'static str>)
        ensures
            r is Err <==> f_seid_error(data@) is Some,
            r matches Err(e) ==> f_seid_error(data@) == Some(e),
            r matches Ok(p) ==> f_seid_fields(p, data@),
    {
        if data.len() == 0 {
            return Err("F-SEID IE empty");
        }
        let flags = data[0];
        let v6 = (flags & 0x01) != 0;
        let v4 = (flags & 0x02) != 0;
        if data.len() < 9 {
            return Err("F-SEID too short for SEID");
        }
        let seid = read_u64(data, 1);
        let mut off: usize = 9;
        let ipv4 = if v4 {
            if data.len() < 13 {
                return Err("F-SEID too short for IPv4");
            }
            let a = read_arr4(data, 9);
            off = 13;
            Some(a)
        } else {
            None
        };
        let ipv6 = if v6 {
            if data.len() - off < 16 {
                return Err("F-SEID too short for IPv6");
            }
            Some(read_arr16(data, off))
        } else {
            None
        };
        Ok(ParsedFSeid { seid, ipv4, ipv6 })
    }
}

/// Parsed F-TEID (TS 29.244 8.2.3).
#[derive(Debug, Clone, Copy, Default)]
pub struct ParsedFTeid {
    pub teid: u32,
    pub ipv4: Option<[u8; 4]>,
    pub ipv6: Option<[u8; 16]>,
    /// CHOOSE: the UPF is asked to allocate the F-TEID
    pub ch: bool,
    /// CHOOSE ID present
    pub chid: bool,
    pub choose_id: Option<u8>,
}

/// Where the IPv4 address of an F-TEID value starts: after the TEID,
/// which is absent when CHOOSE is set.
pub open spec fn f_teid_v4_at(d: Seq<u8>) -> int {
    if has_bit(d[0], 0x04) {
        1
    } else {
        5
    }
}

/// Where the IPv6 address of an F-TEID value starts.
pub open spec fn f_teid_v6_at(d: Seq<u8>) -> int {
    f_teid_v4_at(d) + width(has_bit(d[0], 0x01) && !has_bit(d[0], 0x04), 4)
}

/// Where the CHOOSE ID of an F-TEID value is.
pub open spec fn f_teid_chid_at(d: Seq<u8>) -> int {
    f_teid_v6_at(d) + width(has_bit(d[0], 0x02) && !has_bit(d[0], 0x04), 16)
}

/// Why an F-TEID value cannot be read, if it cannot.
pub open spec fn f_teid_error(d: Seq<u8>) -> Option<&'static str> {
    if d.len() == 0 {
        Some("F-TEID IE empty")
    } else if !has_bit(d[0], 0x04) && d.len() < 5 {
        Some("F-TEID too short for TEID")
    } else if has_bit(d[0], 0x01) && !has_bit(d[0], 0x04) && d.len() < f_teid_v4_at(d) + 4 {
        Some("F-TEID too short for IPv4")
    } else if has_bit(d[0], 0x02) && !has_bit(d[0], 0x04) && d.len() < f_teid_v6_at(d) + 16 {
        Some("F-TEID too short for IPv6")
    } else {
        None
    }
}

/// What a parsed F-TEID holds of the value it was read from.
pub open spec fn f_teid_fields(p: ParsedFTeid, data: Seq<u8>) -> bool {
    let d = data;
    let ch = has_bit(d[0], 0x04);
    let chid = has_bit(d[0], 0x08);
    &&& p.ch == ch
    &&& p.chid == chid
    &&& p.teid == (if ch { 0 } else { u32_at(d, 1) })
    &&& v4_view(p.ipv4) == field_at(d, has_bit(d[0], 0x01) && !ch, f_teid_v4_at(d), 4)
    &&& v6_view(p.ipv6) == field_at(d, has_bit(d[0], 0x02) && !ch, f_teid_v6_at(d), 16)
    &&& p.choose_id == (if chid && d.len() > f_teid_chid_at(d) {
        Some(d[f_teid_chid_at(d)])
    } else {
        None
    })
}

impl ParsedFTeid {
    /// Parses an F-TEID value: flags (V4 = 0x01, V6 = 0x02, CH = 0x04,
    /// CHID = 0x08); without CHOOSE, the TEID and the flagged addresses;
    /// then the CHOOSE ID when flagged and present.
    pub fn parse(data: &[u8]) -> (r: Result<Self, &'static str>)
        ensures
            r is Err <==> f_teid_error(data@) is Some,
            r matches Err(e) ==> f_teid_error(data@) == Some(e),
            r matches Ok(p) ==> f_teid_fields(p, data@),
    {
        if data.len() == 0 {
            return Err("F-TEID IE empty");
        }
        let flags = data[0];
        let v4 = (flags & 0x01) != 0;
        let v6 = (flags & 0x02) != 0;
        let ch = (flags & 0x04) != 0;
        let chid = (flags & 0x08) != 0;
        let mut off: usize = 1;
        let teid = if ch {
            0
        } else {
            if data.len() < 5 {
                return Err("F-TEID too short for TEID");
            }
            off = 5;
            read_u32(data, 1)
        };
        let ipv4 = if v4 && !ch {
            if data.len() - off < 4 {
                return Err("F-TEID too short for IPv4");
            }
            let a = read_arr4(data, off);
            off = off + 4;
            Some(a)
        } else {
            None
        };
        let ipv6 = if v6 && !ch {
            if data.len() - off < 16 {
                return Err("F-TEID too short for IPv6");
            }
            let a = read_arr16(data, off);
            off = off + 16;
            Some(a)
        } else {
            None
        };
        let choose_id = if chid && data.len() > off {
            Some(data[off])
        } else {
            None
        };
        Ok(ParsedFTeid { teid, ipv4, ipv6, ch, chid, choose_id })
    }
}

/// Parsed UE IP Address (TS 29.244 8.2.62).
#[derive(Debug, Clone, Copy, Default)]
pub struct ParsedUeIpAddr {
    pub ipv4: Option<[u8; 4]>,
    pub ipv6: Option<[u8; 16]>,
    pub ipv6_prefix_len: u8,
    /// S/D = 0: a source address (uplink)
    pub source: bool,
    /// S/D = 1: a destination address (downlink)
    pub destination: bool,
}

/// Where the IPv6 address of a UE IP Address value starts.
pub open spec fn ue_ip_v6_at(d: Seq<u8>) -> int {
    1 + width(has_bit(d[0], 0x02), 4)
}

/// Where the octet after the addresses of a UE IP Address value is.
pub open spec fn ue_ip_tail_at(d: Seq<u8>) -> int {
    ue_ip_v6_at(d) + width(has_bit(d[0], 0x01), 16)
}

/// Why a UE IP Address value cannot be read, if it cannot.
pub open spec fn ue_ip_error(d: Seq<u8>) -> Option<&'static str> {
    if d.len() == 0 {
        Some("UE IP Address IE empty")
    } else if has_bit(d[0], 0x02) && d.len() < 5 {
        Some("UE IP too short for IPv4")
    } else if has_bit(d[0], 0x01) && d.len() < ue_ip_v6_at(d) + 16 {
        Some("UE IP too short for IPv6")
    } else {
        None
    }
}

/// What a parsed UE IP Address holds of the value it was read from.
pub open spec fn ue_ip_fields(p: ParsedUeIpAddr, data: Seq<u8>) -> bool {
    let d = data;
    let v6 = has_bit(d[0], 0x01);
    let sd = has_bit(d[0], 0x04);
    &&& v4_view(p.ipv4) == field_at(d, has_bit(d[0], 0x02), 1, 4)
    &&& v6_view(p.ipv6) == field_at(d, v6, ue_ip_v6_at(d), 16)
    &&& p.ipv6_prefix_len == (if has_bit(d[0], 0x08) && d.len() > ue_ip_tail_at(d) {
        d[ue_ip_tail_at(d)]
    } else if v6 {
        64u8
    } else {
        0u8
    })
    &&& p.source == !sd
    &&& p.destination == sd
}

impl ParsedUeIpAddr {
    /// Parses a UE IP Address value: flags (V6 = 0x01, V4 = 0x02, S/D =
    /// 0x04, IPv6D = 0x08), the flagged addresses, then with IPv6D an
    /// octet read as the prefix length. Without it an IPv6 address has the
    /// prefix length 64.
    pub fn parse(data: &[u8]) -> (r: Result<Self, &'static str>)
        ensures
            r is Err <==> ue_ip_error(data@) is Some,
            r matches Err(e) ==> ue_ip_error(data@) == Some(e),
            r matches Ok(p) ==> ue_ip_fields(p, data@),
    {
        if data.len() == 0 {
            return Err("UE IP Address IE empty");
        }
        let flags = data[0];
        let v6 = (flags & 0x01) != 0;
        let v4 = (flags & 0x02) != 0;
        let sd = (flags & 0x04) != 0;
        let ipv6d = (flags & 0x08) != 0;
        let mut off: usize = 1;
        let ipv4 = if v4 {
            if data.len() < 5 {
                return Err("UE IP too short for IPv4");
            }
            off = 5;
            Some(read_arr4(data, 1))
        } else {
            None
        };
        let ipv6 = if v6 {
            if data.len() - off < 16 {
                return Err("UE IP too short for IPv6");
            }
            let a = read_arr16(data, off);
            off = off + 16;
            Some(a)
        } else {
            None
        };
        let ipv6_prefix_len = if ipv6d && data.len() > off {
            data[off]
        } else if v6 {
            64
        } else {
            0
        };
        Ok(ParsedUeIpAddr { ipv4, ipv6, ipv6_prefix_len, source: !sd, destination: sd })
    }
}

/// Parsed Outer Header Creation (TS 29.244 8.2.56).
#[derive(Debug, Clone, Copy, Default)]
pub struct ParsedOuterHeaderCreation {
    pub description: u16,
    pub teid: u32,
    pub ipv4: Option<[u8; 4]>,
    pub ipv6: Option<[u8; 16]>,
    pub port: Option<u16>,
}

/// Whether an Outer Header Creation description asks for GTP-U over IPv4.
pub open spec fn ohc_gtpu_v4(description: u16) -> bool {
    description & 0x0100 != 0
}

/// Whether an Outer Header Creation description asks for GTP-U over IPv6.
pub open spec fn ohc_gtpu_v6(description: u16) -> bool {
    description & 0x0200 != 0
}

/// Where the IPv4 address of an Outer Header Creation value starts.
pub open spec fn ohc_v4_at(d: Seq<u8>) -> int {
    let desc = u16_at(d, 0);
    2 + width(ohc_gtpu_v4(desc) || ohc_gtpu_v6(desc), 4)
}

/// Where the IPv6 address of an Outer Header Creation value starts.
pub open spec fn ohc_v6_at(d: Seq<u8>) -> int {
    ohc_v4_at(d) + width(ohc_gtpu_v4(u16_at(d, 0)), 4)
}

/// Where the port of an Outer Header Creation value starts.
pub open spec fn ohc_port_at(d: Seq<u8>) -> int {
    ohc_v6_at(d) + width(ohc_gtpu_v6(u16_at(d, 0)), 16)
}

/// Why an Outer Header Creation value cannot be read, if it cannot.
pub open spec fn ohc_error(d: Seq<u8>) -> Option<&'static str> {
    if d.len() < 2 {
        Some("Outer Header Creation too short")
    } else if (ohc_gtpu_v4(u16_at(d, 0)) || ohc_gtpu_v6(u16_at(d, 0))) && d.len() < 6 {
        Some("OHC too short for TEID")
    } else if ohc_gtpu_v4(u16_at(d, 0)) && d.len() < ohc_v4_at(d) + 4 {
        Some("OHC too short for IPv4")
    } else if ohc_gtpu_v6(u16_at(d, 0)) && d.len() < ohc_v6_at(d) + 16 {
        Some("OHC too short for IPv6")
    } else {
        None
    }
}

/// What a parsed Outer Header Creation holds of the value it was read from.
pub open spec fn ohc_fields(p: ParsedOuterHeaderCreation, data: Seq<u8>) -> bool {
    let d = data;
    let desc = u16_at(d, 0);
    &&& p.description == desc
    &&& p.teid == (if ohc_gtpu_v4(desc) || ohc_gtpu_v6(desc) { u32_at(d, 2) } else { 0 })
    &&& v4_view(p.ipv4) == field_at(d, ohc_gtpu_v4(desc), ohc_v4_at(d), 4)
    &&& v6_view(p.ipv6) == field_at(d, ohc_gtpu_v6(desc), ohc_v6_at(d), 16)
    &&& p.port == (if d.len() >= ohc_port_at(d) + 2 {
        Some(u16_at(d, ohc_port_at(d)))
    } else {
        None
    })
}

impl ParsedOuterHeaderCreation {
    /// Parses an Outer Header Creation value: the description; for GTP-U
    /// the TEID, then the IPv4 and / or IPv6 address it names; then a port
    /// when two more octets follow.
    pub fn parse(data: &[u8]) -> (r: Result<Self, &'static str>)
        ensures
            r is Err <==> ohc_error(data@) is Some,
            r matches Err(e) ==> ohc_error(data@) == Some(e),
            r matches Ok(p) ==> ohc_fields(p, data@),
    {
        if data.len() < 2 {
            return Err("Outer Header Creation too short");
        }
        let description = read_u16(data, 0);
        let gtpu_ipv4 = (description & 0x0100) != 0;
        let gtpu_ipv6 = (description & 0x0200) != 0;
        let mut off: usize = 2;
        let teid = if gtpu_ipv4 || gtpu_ipv6 {
            if data.len() < 6 {
                return Err("OHC too short for TEID");
            }
            off = 6;
            read_u32(data, 2)
        } else {
            0
        };
        let ipv4 = if gtpu_ipv4 {
            if data.len() - off < 4 {
                return Err("OHC too short for IPv4");
            }
            let a = read_arr4(data, off);
            off = off + 4;
            Some(a)
        } else {
            None
        };
        let ipv6 = if gtpu_ipv6 {
            if data.len() - off < 16 {
                return Err("OHC too short for IPv6");
            }
            let a = read_arr16(data, off);
            off = off + 16;
            Some(a)
        } else {
            None
        };
        let port = if data.len() - off >= 2 {
            Some(read_u16(data, off))
        } else {
            None
        };
        Ok(ParsedOuterHeaderCreation { description, teid, ipv4, ipv6, port })
    }
}

/// Parsed Node ID (TS 29.244 8.2.38).
#[derive(Debug, Clone)]
pub enum ParsedNodeId {
    Ipv4([u8; 4]),
    Ipv6([u8; 16]),
    Fqdn(String),
}

/// Why a Node ID value cannot be read, if it cannot.
pub open spec fn node_id_error(d: Seq<u8>) -> Option<&'static str> {
    if d.len() == 0 {
        Some("Node ID IE empty")
    } else if d[0] == 0 && d.len() < 5 {
        Some("Node ID too short for IPv4")
    } else if d[0] == 1 && d.len() < 17 {
        Some("Node ID too short for IPv6")
    } else if d[0] > 2 {
        Some("Unknown Node ID type")
    } else {
        None
    }
}

impl ParsedNodeId {
    /// Parses a Node ID value: the type octet (0 IPv4, 1 IPv6, 2 FQDN) and
    /// the address or name; an FQDN is kept as the text of its octets.
    pub fn parse(data: &[u8]) -> (r: Result<Self, &'static str>)
        ensures
            r is Err <==> node_id_error(data@) is Some,
            r matches Err(e) ==> node_id_error(data@) == Some(e),
            r matches Ok(n) ==> match n {
                ParsedNodeId::Ipv4(a) => data@[0] == 0 && a@ == data@.subrange(1, 5),
                ParsedNodeId::Ipv6(a) => data@[0] == 1 && a@ == data@.subrange(1, 17),
                ParsedNodeId::Fqdn(s) => data@[0] == 2 && s@ == utf8_lossy(data@.subrange(1, data@.len() as int)),
            },
    {
        if data.len() == 0 {
            return Err("Node ID IE empty");
        }
        let node_type = data[0];
        if node_type == 0 {
            if data.len() < 5 {
                return Err("Node ID too short for IPv4");
            }
            Ok(ParsedNodeId::Ipv4(read_arr4(data, 1)))
        } else if node_type == 1 {
            if data.len() < 17 {
                return Err("Node ID too short for IPv6");
            }
            Ok(ParsedNodeId::Ipv6(read_arr16(data, 1)))
        } else if node_type == 2 {
            Ok(ParsedNodeId::Fqdn(lossy_string(&data[1..data.len()])))
        } else {
            Err("Unknown Node ID type")
        }
    }
}

} // verus!
