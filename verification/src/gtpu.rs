//! GTP-U framing on N3 (TS 29.281): G-PDU headers with and without the PDU
//! Session Container, path management messages, Error Indication and End
//! Marker, and the readers the UPF applies to what it receives.

use vstd::prelude::*;
pub mod gtpu_msg_type;

use crate::wire::{be16, be32, u16_at, u32_at, u16_bytes, u32_bytes, read_u16, read_u32, read_arr4, lemma_u16_roundtrip, lemma_u32_roundtrip};

verus! {

/// GTP-U port.
pub const GTPU_PORT: u16 = 2152;

/// GTP-U header size without optional fields.
pub const GTPU_HEADER_SIZE: usize = 8;

/// GTP-U header size with the sequence number field.
pub const GTPU_HEADER_SIZE_WITH_SEQ: usize = 12;

/// Largest packet handled.
pub const MAX_PACKET_SIZE: usize = 65535;

/// MTU of the TUN device.
pub const TUN_MTU: u32 = 1400;

/// IP version 4.
pub const IP_VERSION_4: u8 = 4;

/// IP version 6.
pub const IP_VERSION_6: u8 = 6;

/// "Outer TOS not applied yet": no TOS value equals it.
pub const GTPU_TOS_UNSET: u64 = 0xFFFF_FFFF_FFFF_FFFF;

/// The Recovery IE type (TV format, TS 29.281 8.2).
pub const GTPU_IE_RECOVERY: u8 = 14;

/// The Next Extension Header Type of a PDU Session Container.
pub const PDU_SESSION_CONTAINER: u8 = 0x85;

/// The 8-octet G-PDU header: version 1, PT 1, no optional field.
pub open spec fn gtpu_header(teid: u32, payload_len: u16) -> Seq<u8> {
    seq![0x30u8, 0xFFu8] + be16(payload_len) + be32(teid)
}

/// Builds a G-PDU header.
pub fn build_gtpu_header(teid: u32, payload_len: u16) -> (h: [u8; 8])
    ensures
        h@ == gtpu_header(teid, payload_len),
{
    let l = u16_bytes(payload_len);
    let t = u32_bytes(teid);
    let h = [0x30u8, gtpu_msg_type::GPDU, l[0], l[1], t[0], t[1], t[2], t[3]];
    assert(h@ =~= gtpu_header(teid, payload_len));
    h
}

/// The 12-octet G-PDU header with the S flag: the length also counts the
/// sequence number, N-PDU number and next-extension octets.
pub open spec fn gtpu_header_with_seq(teid: u32, payload_len: u16, seq: u16) -> Seq<u8> {
    seq![0x32u8, 0xFFu8] + be16((payload_len + 4) as u16) + be32(teid) + be16(seq) + seq![0u8, 0u8]
}

/// Builds a G-PDU header with a sequence number.
pub fn build_gtpu_header_with_seq(teid: u32, payload_len: u16, seq: u16) -> (h: [u8; 12])
    requires
        payload_len + 4 <= 0xFFFF,
    ensures
        h@ == gtpu_header_with_seq(teid, payload_len, seq),
{
    let l = u16_bytes(payload_len + 4);
    let t = u32_bytes(teid);
    let s = u16_bytes(seq);
    let h = [0x32u8, gtpu_msg_type::GPDU, l[0], l[1], t[0], t[1], t[2], t[3], s[0], s[1], 0, 0];
    assert(h@ =~= gtpu_header_with_seq(teid, payload_len, seq));
    h
}

/// A downlink PDU Session Container (TS 38.415 5.5.2.1) as one extension
/// header: length 1 (four octets), PDU type 0 (DL), the QFI in the low six
/// bits of the second octet, and no further extension header.
pub open spec fn dl_pdu_session_container(qfi: u8) -> Seq<u8> {
    seq![1u8, 0u8, qfi & 0x3F, 0u8]
}

/// The G-PDU header with the E flag and a downlink PDU Session Container.
pub open spec fn gtpu_header_with_qfi(teid: u32, payload_len: u16, qfi: u8) -> Seq<u8> {
    seq![0x34u8, 0xFFu8] + be16((payload_len + 8) as u16) + be32(teid) + seq![0u8, 0u8, 0u8, PDU_SESSION_CONTAINER]
        + dl_pdu_session_container(qfi)
}

/// Builds a G-PDU header carrying the QFI in a PDU Session Container, so
/// that the gNB can map the packet to its QoS flow.
pub fn build_gtpu_header_with_qfi(teid: u32, payload_len: u16, qfi: u8) -> (h: Vec<u8>)
    requires
        payload_len + 8 <= 0xFFFF,
    ensures
        h@ == gtpu_header_with_qfi(teid, payload_len, qfi),
{
    let l = u16_bytes(payload_len + 8);
    let t = u32_bytes(teid);
    let h = vec![
        0x34u8,
        gtpu_msg_type::GPDU,
        l[0],
        l[1],
        t[0],
        t[1],
        t[2],
        t[3],
        0,
        0,
        0,
        PDU_SESSION_CONTAINER,
        1,
        0,
        qfi & 0x3F,
        0,
    ];
    assert(h@ =~= gtpu_header_with_qfi(teid, payload_len, qfi));
    h
}

/// A downlink G-PDU: the header, with the PDU Session Container when a QFI
/// is known, then the inner IP packet. The length field holds the packet
/// length modulo 2^16.
pub open spec fn dl_gpdu(inner_ip: Seq<u8>, teid: u32, qfi: Option<u8>) -> Seq<u8> {
    let n = (inner_ip.len() % 0x1_0000) as u16;
    match qfi {
        Some(q) => gtpu_header_with_qfi(teid, n, q) + inner_ip,
        None => gtpu_header(teid, n) + inner_ip,
    }
}

/// Encapsulates an inner IP packet as a downlink G-PDU.
pub fn encapsulate_dl_gpdu(inner_ip: &[u8], teid: u32, qfi: Option<u8>) -> (pkt: Vec<u8>)
    requires
        qfi is Some ==> inner_ip@.len() % 0x1_0000 + 8 <= 0xFFFF,
    ensures
        pkt@ == dl_gpdu(inner_ip@, teid, qfi),
{
    let n = (inner_ip.len() % 0x1_0000) as u16;
    match qfi {
        Some(q) => {
            let mut pkt = build_gtpu_header_with_qfi(teid, n, q);
            pkt.extend_from_slice(inner_ip);
            pkt
        },
        None => {
            let header = build_gtpu_header(teid, n);
            let mut pkt: Vec<u8> = Vec::new();
            pkt.extend_from_slice(&header);
            pkt.extend_from_slice(inner_ip);
            pkt
        },
    }
}

/// The IEs of an Error Indication (TS 29.281 7.3.1): Tunnel Endpoint
/// Identifier Data I (TV, type 16) with the offending TEID, then GTP-U
/// Peer Address (TLV, type 133) with this node's IPv4 address.
pub open spec fn error_indication_ies(offending_teid: u32, local_addr: [u8; 4]) -> Seq<u8> {
    seq![16u8] + be32(offending_teid) + seq![133u8] + be16(4) + local_addr@
}

/// An Error Indication: S flag set, TEID 0, then the IEs.
pub open spec fn error_indication(offending_teid: u32, local_addr: [u8; 4]) -> Seq<u8> {
    seq![0x32u8, gtpu_msg_type::ERROR_INDICATION] + be16(16) + be32(0) + seq![0u8, 0u8, 0u8, 0u8]
        + error_indication_ies(offending_teid, local_addr)
}

/// Builds an Error Indication for a G-PDU whose TEID has no context here.
pub fn build_gtpu_error_indication(offending_teid: u32, local_addr: [u8; 4]) -> (pkt: Vec<u8>)
    ensures
        pkt@ == error_indication(offending_teid, local_addr),
{
    let t = u32_bytes(offending_teid);
    let pkt = vec![
        0x32u8,
        gtpu_msg_type::ERROR_INDICATION,
        0,
        16,
        0,
        0,
        0,
        0,
        0,
        0,
        0,
        0,
        16,
        t[0],
        t[1],
        t[2],
        t[3],
        133,
        0,
        4,
        local_addr[0],
        local_addr[1],
        local_addr[2],
        local_addr[3],
    ];
    assert(pkt@ =~= error_indication(offending_teid, local_addr));
    pkt
}

/// What reading the IEs of an Error Indication from `off` gives, having
/// seen `teid` and `peer` so far: `None` when an IE does not fit, else the
/// TEID (which must have been seen) and the last four-octet peer address.
/// Reading stops at an unknown TV type (below 128); unknown TLV types are
/// skipped by their length.
pub open spec fn error_indication_scan(
    p: Seq<u8>,
    off: int,
    teid: Option<u32>,
    peer: Option<Seq<u8>>,
) -> Option<(u32, Option<Seq<u8>>)>
    decreases p.len() - off,
{
    if off < 0 || off >= p.len() {
        match teid {
            Some(t) => Some((t, peer)),
            None => None,
        }
    } else if p[off] == 16 {
        if off + 5 > p.len() {
            None
        } else {
            error_indication_scan(p, off + 5, Some(u32_at(p, off + 1)), peer)
        }
    } else if p[off] == 133 {
        if off + 3 > p.len() {
            None
        } else {
            let n = u16_at(p, off + 1) as int;
            if off + 3 + n > p.len() {
                None
            } else {
                error_indication_scan(
                    p,
                    off + 3 + n,
                    teid,
                    if n == 4 {
                        Some(p.subrange(off + 3, off + 7))
                    } else {
                        peer
                    },
                )
            }
        }
    } else if p[off] >= 128 {
        if off + 3 > p.len() {
            None
        } else {
            let next = off + 3 + u16_at(p, off + 1) as int;
            if next >= p.len() {
                error_indication_scan(p, p.len() as int, teid, peer)
            } else {
                error_indication_scan(p, next, teid, peer)
            }
        }
    } else {
        match teid {
            Some(t) => Some((t, peer)),
            None => None,
        }
    }
}

/// The view of a parsed Error Indication.
pub open spec fn ei_view(r: Option<(u32, Option<[u8; 4]>)>) -> Option<(u32, Option<Seq<u8>>)> {
    match r {
        Some((t, Some(a))) => Some((t, Some(a@))),
        Some((t, None)) => Some((t, None)),
        None => None,
    }
}

/// Reads the TEID and the peer address out of an Error Indication payload.
pub fn parse_gtpu_error_indication(payload: &[u8]) -> (r: Option<(u32, Option<[u8; 4]>)>)
    ensures
        ei_view(r) == error_indication_scan(payload@, 0, None, None),
{
    let mut teid: Option<u32> = None;
    let mut peer: Option<[u8; 4]> = None;
    let mut off: usize = 0;
    let n = payload.len();
    let mut stop = false;
    while off < n && !stop
        invariant
            n == payload@.len(),
            off <= n,
            stop ==> off < n && payload@[off as int] != 16 && payload@[off as int] != 133 && payload@[off as int]
                < 128,
            error_indication_scan(payload@, off as int, teid, match peer {
                Some(a) => Some(a@),
                None => None,
            }) == error_indication_scan(payload@, 0, None, None),
        decreases (if stop { 0int } else { 1int }) + n - off,
    {
        let t = payload[off];
        if t == 16 {
            if n - off < 5 {
                return None;
            }
            teid = Some(read_u32(payload, off + 1));
            off = off + 5;
        } else if t == 133 {
            if n - off < 3 {
                return None;
            }
            let len = read_u16(payload, off + 1) as usize;
            if n - off - 3 < len {
                return None;
            }
            if len == 4 {
                peer = Some(read_arr4(payload, off + 3));
            }
            off = off + 3 + len;
        } else if t >= 128 {
            if n - off < 3 {
                return None;
            }
            let len = read_u16(payload, off + 1) as usize;
            if len >= n - off - 3 {
                off = n;
            } else {
                off = off + 3 + len;
            }
        } else {
            stop = true;
        }
    }
    match teid {
        Some(t) => Some((t, peer)),
        None => None,
    }
}

/// An End Marker (TS 29.281 7.3.2): no payload.
pub open spec fn end_marker(teid: u32) -> Seq<u8> {
    seq![0x30u8, gtpu_msg_type::END_MARKER] + be16(0) + be32(teid)
}

/// Builds an End Marker for a tunnel.
pub fn build_gtpu_end_marker(teid: u32) -> (pkt: Vec<u8>)
    ensures
        pkt@ == end_marker(teid),
{
    let t = u32_bytes(teid);
    let pkt = vec![0x30u8, gtpu_msg_type::END_MARKER, 0, 0, t[0], t[1], t[2], t[3]];
    assert(pkt@ =~= end_marker(teid));
    pkt
}

/// An Echo message (TS 29.281 7.2): S flag set, length 6, TEID 0, the
/// sequence number, then the Recovery IE with the restart counter.
pub open spec fn echo_message(msg_type: u8, seq: u16, restart_counter: u8) -> Seq<u8> {
    seq![0x32u8, msg_type] + be16(6) + be32(0) + be16(seq) + seq![0u8, 0u8, GTPU_IE_RECOVERY, restart_counter]
}

/// Builds an Echo message.
fn build_echo(msg_type: u8, seq: u16, restart_counter: u8) -> (pkt: Vec<u8>)
    ensures
        pkt@ == echo_message(msg_type, seq, restart_counter),
{
    let s = u16_bytes(seq);
    let pkt = vec![0x32u8, msg_type, 0, 6, 0, 0, 0, 0, s[0], s[1], 0, 0, GTPU_IE_RECOVERY, restart_counter];
    assert(pkt@ =~= echo_message(msg_type, seq, restart_counter));
    pkt
}

/// Builds an Echo Response echoing the request's sequence number (0 when
/// it had none), with restart counter 0.
pub fn build_gtpu_echo_response(seq: Option<u16>) -> (pkt: Vec<u8>)
    ensures
        pkt@ == echo_message(
            gtpu_msg_type::ECHO_RESPONSE,
            match seq {
                Some(s) => s,
                None => 0,
            },
            0,
        ),
{
    let seq_num = match seq {
        Some(s) => s,
        None => 0,
    };
    build_echo(gtpu_msg_type::ECHO_RESPONSE, seq_num, 0)
}

/// Builds an Echo Request.
pub fn build_gtpu_echo_request(seq: u16, restart_counter: u8) -> (pkt: Vec<u8>)
    ensures
        pkt@ == echo_message(gtpu_msg_type::ECHO_REQUEST, seq, restart_counter),
{
    build_echo(gtpu_msg_type::ECHO_REQUEST, seq, restart_counter)
}

/// The restart counter of the first Recovery IE found by stepping over
/// two-octet TV IEs from `i`.
pub open spec fn recovery_scan(p: Seq<u8>, i: int) -> Option<u8>
    decreases p.len() - i,
{
    if i < 0 || i + 1 >= p.len() {
        None
    } else if p[i] == GTPU_IE_RECOVERY {
        Some(p[i + 1])
    } else {
        recovery_scan(p, i + 2)
    }
}

/// Reads the restart counter of the Recovery IE of an Echo payload.
pub fn parse_gtpu_recovery_ie(payload: &[u8]) -> (r: Option<u8>)
    ensures
        r == recovery_scan(payload@, 0),
{
    let n = payload.len();
    let mut i: usize = 0;
    while i < n && n - i > 1
        invariant
            n == payload@.len(),
            recovery_scan(payload@, i as int) == recovery_scan(payload@, 0),
        decreases n - i,
    {
        if payload[i] == GTPU_IE_RECOVERY {
            return Some(payload[i + 1]);
        }
        i = i + 2;
    }
    None
}

/// Where the chain of extension headers that starts at `off` with type
/// `next` ends, if every header fits: each is a length in four-octet units
/// (not 0), its content, and the type of the next one in its last octet.
pub open spec fn ext_chain_end(g: Seq<u8>, next: u8, off: int) -> Option<int>
    decreases g.len() - off,
{
    if next == 0 {
        Some(off)
    } else if off < 0 || off >= g.len() {
        None
    } else {
        let l = g[off] as int * 4;
        if l == 0 || off + l > g.len() {
            None
        } else {
            ext_chain_end(g, g[off + l - 1], off + l)
        }
    }
}

/// The length of a GTP-U header with its optional fields and extension
/// headers, if it fits.
pub open spec fn gtpu_header_len(g: Seq<u8>) -> Option<int> {
    if g.len() < 8 {
        None
    } else if g[0] & 0x07 == 0 {
        Some(8)
    } else if g.len() < 12 {
        None
    } else if g[0] & 0x04 == 0 {
        Some(12)
    } else {
        ext_chain_end(g, g[11], 12)
    }
}

/// Computes the GTP-U header length.
fn header_len_of(g: &[u8]) -> (r: Option<usize>)
    ensures
        match r {
            Some(n) => gtpu_header_len(g@) == Some(n as int),
            None => gtpu_header_len(g@) is None,
        },
        r matches Some(n) ==> n <= g@.len(),
{
    if g.len() < 8 {
        return None;
    }
    let flags = g[0];
    if flags & 0x07 == 0 {
        return Some(8);
    }
    if g.len() < 12 {
        return None;
    }
    if flags & 0x04 == 0 {
        return Some(12);
    }
    let n = g.len();
    let mut next = g[11];
    let mut off: usize = 12;
    while next != 0
        invariant
            n == g@.len(),
            12 <= off <= n,
            ext_chain_end(g@, next, off as int) == gtpu_header_len(g@),
        decreases n - off,
    {
        if off >= n {
            return None;
        }
        let l = (g[off] as usize) * 4;
        if l == 0 || l > n - off {
            return None;
        }
        next = g[off + l - 1];
        off = off + l;
    }
    Some(off)
}

/// Parsed GTP-U header (TS 29.281 5.1).
#[derive(Debug, Clone, Copy)]
pub struct GtpuHeader {
    pub version: u8,
    pub flags: u8,
    pub msg_type: u8,
    pub length: u16,
    pub teid: u32,
    /// The sequence number, when the S flag is set
    pub seq_num: Option<u16>,
    /// Octets up to the payload: 8, 12, or more with extension headers
    pub header_len: usize,
}

/// Parses a GTP-U header: `None` when it does not fit.
pub fn parse_gtpu_header(g: &[u8]) -> (r: Option<GtpuHeader>)
    ensures
        r is Some <==> gtpu_header_len(g@) is Some,
        r matches Some(h) ==> {
            &&& h.flags == g@[0]
            &&& h.version == g@[0] >> 5u8
            &&& h.msg_type == g@[1]
            &&& h.length == u16_at(g@, 2)
            &&& h.teid == u32_at(g@, 4)
            &&& h.seq_num == (if g@[0] & 0x02 != 0 { Some(u16_at(g@, 8)) } else { None })
            &&& gtpu_header_len(g@) == Some(h.header_len as int)
            &&& h.header_len <= g@.len()
        },
{
    match header_len_of(g) {
        None => None,
        Some(header_len) => {
            let flags = g[0];
            assert(flags & 0x02 != 0 ==> flags & 0x07 != 0) by (bit_vector);
            let seq_num = if flags & 0x02 != 0 {
                Some(read_u16(g, 8))
            } else {
                None
            };
            Some(
                GtpuHeader {
                    version: flags >> 5u8,
                    flags,
                    msg_type: g[1],
                    length: read_u16(g, 2),
                    teid: read_u32(g, 4),
                    seq_num,
                    header_len,
                },
            )
        },
    }
}

/// The inner IP packet of a G-PDU, if the message is a G-PDU whose header
/// fits.
pub open spec fn decap(g: Seq<u8>) -> Option<Seq<u8>> {
    if g.len() < 8 || g[1] != gtpu_msg_type::GPDU {
        None
    } else {
        match gtpu_header_len(g) {
            Some(h) => Some(g.subrange(h, g.len() as int)),
            None => None,
        }
    }
}

/// Strips the GTP-U header of a G-PDU and returns the inner IP packet.
pub fn decap_gtp(gtp_bytes: &[u8]) -> (r: Option<&[u8]>)
    ensures
        match r {
            Some(inner) => decap(gtp_bytes@) == Some(inner@),
            None => decap(gtp_bytes@) is None,
        },
{
    if gtp_bytes.len() < GTPU_HEADER_SIZE {
        return None;
    }
    if gtp_bytes[1] != 0xFF {
        return None;
    }
    match header_len_of(gtp_bytes) {
        Some(h) => Some(&gtp_bytes[h..gtp_bytes.len()]),
        None => None,
    }
}

/// The QFI of the first PDU Session Container met along the extension
/// chain from `off`, if the chain reaches one before a header that does
/// not fit.
pub open spec fn qfi_scan(g: Seq<u8>, next: u8, off: int) -> Option<u8>
    decreases g.len() - off,
{
    if next == 0 || off < 0 || off >= g.len() {
        None
    } else {
        let l = g[off] as int * 4;
        if l == 0 || off + l > g.len() {
            None
        } else if next == PDU_SESSION_CONTAINER && l >= 4 {
            Some(g[off + 2] & 0x3F)
        } else {
            qfi_scan(g, g[off + l - 1], off + l)
        }
    }
}

/// The QFI a G-PDU carries, if its E flag is set and a PDU Session
/// Container is found.
pub open spec fn gtpu_qfi(g: Seq<u8>) -> Option<u8> {
    if g.len() < 12 || g[0] & 0x04 == 0 {
        None
    } else {
        qfi_scan(g, g[11], 12)
    }
}

/// Reads the QFI out of a G-PDU's PDU Session Container.
pub fn extract_qfi_from_gtp_header(gtp_bytes: &[u8]) -> (r: Option<u8>)
    ensures
        r == gtpu_qfi(gtp_bytes@),
{
    if gtp_bytes.len() < 8 {
        return None;
    }
    let flags = gtp_bytes[0];
    if flags & 0x04 == 0 {
        return None;
    }
    if gtp_bytes.len() < 12 {
        return None;
    }
    let n = gtp_bytes.len();
    let mut next = gtp_bytes[11];
    let mut offset: usize = 12;
    while next != 0
        invariant
            n == gtp_bytes@.len(),
            12 <= offset,
            qfi_scan(gtp_bytes@, next, offset as int) == gtpu_qfi(gtp_bytes@),
        decreases n - offset,
    {
        if offset >= n {
            return None;
        }
        let l = (gtp_bytes[offset] as usize) * 4;
        if l == 0 || l > n - offset {
            return None;
        }
        if next == PDU_SESSION_CONTAINER && l >= 4 {
            return Some(gtp_bytes[offset + 2] & 0x3F);
        }
        next = gtp_bytes[offset + l - 1];
        offset = offset + l;
    }
    None
}

/// A G-PDU in a GTP-U/UDP/IPv4 frame to `peer_addr`: a 20-octet IPv4
/// header (DF, TTL 64, UDP, checksum and source left 0), the UDP header
/// from and to port 2152, the G-PDU header, then the inner packet. The
/// lengths saturate at 65535; the G-PDU length is the packet length modulo
/// 2^16.
pub open spec fn gtp_frame(inner_ip: Seq<u8>, teid: u32, peer_addr: [u8; 4]) -> Seq<u8> {
    let n = (inner_ip.len() % 0x1_0000) as int;
    let udp_len = if 16 + n > 0xFFFF { 0xFFFFint } else { 16 + n };
    let ip_len = if 20 + udp_len > 0xFFFF { 0xFFFFint } else { 20 + udp_len };
    seq![0x45u8, 0u8] + be16(ip_len as u16) + seq![0u8, 0u8, 0x40u8, 0u8, 0x40u8, 0x11u8, 0u8, 0u8, 0u8, 0u8, 0u8, 0u8]
        + peer_addr@ + be16(GTPU_PORT) + be16(GTPU_PORT) + be16(udp_len as u16) + seq![0u8, 0u8] + gtpu_header(
        teid,
        n as u16,
    ) + inner_ip
}

/// Frames an inner IP packet as GTP-U over UDP over IPv4.
pub fn encap_gtp(inner_ip: &[u8], teid: u32, peer_addr: [u8; 4]) -> (pkt: Vec<u8>)
    ensures
        pkt@ == gtp_frame(inner_ip@, teid, peer_addr),
{
    let gtpu_payload_len = (inner_ip.len() % 0x1_0000) as u16;
    let udp_len: u16 = 16u16.saturating_add(gtpu_payload_len);
    let ip_total_len: u16 = 20u16.saturating_add(udp_len);
    let ip_len = u16_bytes(ip_total_len);
    let udp = u16_bytes(udp_len);
    let port = u16_bytes(GTPU_PORT);
    let head = [
        0x45u8,
        0x00,
        ip_len[0],
        ip_len[1],
        0x00,
        0x00,
        0x40,
        0x00,
        0x40,
        0x11,
        0x00,
        0x00,
        0,
        0,
        0,
        0,
        peer_addr[0],
        peer_addr[1],
        peer_addr[2],
        peer_addr[3],
        port[0],
        port[1],
        port[0],
        port[1],
        udp[0],
        udp[1],
        0x00,
        0x00,
    ];
    let gtpu_hdr = build_gtpu_header(teid, gtpu_payload_len);
    let mut pkt: Vec<u8> = Vec::new();
    pkt.extend_from_slice(&head);
    pkt.extend_from_slice(&gtpu_hdr);
    pkt.extend_from_slice(inner_ip);
    assert(pkt@ =~= gtp_frame(inner_ip@, teid, peer_addr));
    pkt
}

/// The QFI put into a downlink G-PDU is the QFI read back out of it (its
/// low six bits, which is all the PDU Session Container holds).
pub proof fn lemma_dl_gpdu_qfi_roundtrip(inner_ip: Seq<u8>, teid: u32, qfi: u8)
    requires
        inner_ip.len() % 0x1_0000 + 8 <= 0xFFFF,
    ensures
        gtpu_qfi(dl_gpdu(inner_ip, teid, Some(qfi))) == Some(qfi & 0x3F),
{
    let g = dl_gpdu(inner_ip, teid, Some(qfi));
    assert(g[0] == 0x34u8);
    assert(0x34u8 & 0x04u8 != 0) by (bit_vector);
    assert(g[11] == PDU_SESSION_CONTAINER);
    assert(g[12] == 1u8);
    assert(g[14] == qfi & 0x3F);
    assert((qfi & 0x3F) & 0x3F == qfi & 0x3F) by (bit_vector);
    assert(g.len() >= 16);
}

/// Decapsulating a downlink G-PDU gives back the inner packet, with or
/// without the PDU Session Container.
pub proof fn lemma_dl_gpdu_decap_roundtrip(inner_ip: Seq<u8>, teid: u32, qfi: Option<u8>)
    requires
        qfi is Some ==> inner_ip.len() % 0x1_0000 + 8 <= 0xFFFF,
    ensures
        decap(dl_gpdu(inner_ip, teid, qfi)) == Some(inner_ip),
{
    let g = dl_gpdu(inner_ip, teid, qfi);
    match qfi {
        Some(q) => {
            assert(g[0] == 0x34u8);
            assert(0x34u8 & 0x07u8 != 0 && 0x34u8 & 0x04u8 != 0) by (bit_vector);
            assert(g[11] == PDU_SESSION_CONTAINER);
            assert(g[12] == 1u8);
            assert(g[15] == 0u8);
            assert(ext_chain_end(g, g[15], 16) == Some(16int));
            assert(gtpu_header_len(g) == Some(16int));
            assert(g.subrange(16, g.len() as int) =~= inner_ip);
        },
        None => {
            assert(g[0] == 0x30u8);
            assert(0x30u8 & 0x07u8 == 0) by (bit_vector);
            assert(g.subrange(8, g.len() as int) =~= inner_ip);
        },
    }
}

/// The IEs of an Error Indication read back as the TEID and the peer
/// address it was built with.
pub proof fn lemma_error_indication_roundtrip(offending_teid: u32, local_addr: [u8; 4])
    ensures
        error_indication_scan(error_indication(offending_teid, local_addr).subrange(12, 24), 0, None, None) == Some(
            (offending_teid, Some(local_addr@)),
        ),
{
    let p = error_indication(offending_teid, local_addr).subrange(12, 24);
    assert(p =~= error_indication_ies(offending_teid, local_addr));
    lemma_u32_roundtrip(offending_teid);
    lemma_u16_roundtrip(4);
    assert(u32_at(p, 1) == offending_teid);
    assert(u16_at(p, 6) == 4);
    assert(p.subrange(8, 12) =~= local_addr@);
    assert(error_indication_scan(p, 12, Some(offending_teid), Some(local_addr@)) == Some(
        (offending_teid, Some(local_addr@)),
    ));
    assert(error_indication_scan(p, 5, Some(offending_teid), None) == Some((offending_teid, Some(local_addr@))));
}

/// The Recovery IE of an Echo message, read after its 12-octet header,
/// gives the restart counter it was built with.
pub proof fn lemma_echo_recovery_roundtrip(msg_type: u8, seq: u16, restart_counter: u8)
    ensures
        recovery_scan(echo_message(msg_type, seq, restart_counter).subrange(12, 14), 0) == Some(restart_counter),
{
    let p = echo_message(msg_type, seq, restart_counter).subrange(12, 14);
    assert(p[0] == GTPU_IE_RECOVERY);
    assert(p[1] == restart_counter);
}

} // verus!
