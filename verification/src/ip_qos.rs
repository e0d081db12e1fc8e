//! QoS marking of IP packets on the user plane: the QFI to DSCP mapping
//! (TS 23.501 Table 5.7.4-1), DSCP marking of IPv4 and IPv6 headers, and
//! the IPv4 header checksum (RFC 791, RFC 1071) that marking must keep
//! valid.

use vstd::prelude::*;
use crate::wire::{be16, u16_at, u16_bytes, read_u16, lemma_u16_roundtrip};

verus! {

/// The DSCP that transport marking uses for a QFI (TS 23.501 Table
/// 5.7.4-1): EF for voice, mission-critical and the XR flows, AF classes
/// for video, gaming and streaming, best effort otherwise.
pub open spec fn dscp_of_qfi(qfi: u8) -> u8 {
    if qfi == 1 || qfi == 65 || qfi == 82 || qfi == 83 || qfi == 85 {
        46
    } else if qfi == 2 || qfi == 84 {
        34
    } else if qfi == 3 || qfi == 66 {
        26
    } else if qfi == 4 {
        24
    } else if qfi == 6 {
        18
    } else if qfi == 7 {
        10
    } else {
        0
    }
}

/// Maps a QFI to the DSCP of the outer IP header.
pub fn qfi_to_dscp(qfi: u8) -> (d: u8)
    ensures
        d == dscp_of_qfi(qfi),
{
    match qfi {
        1 => 46,
        2 => 34,
        3 => 26,
        4 => 24,
        5 => 0,
        6 => 18,
        7 => 10,
        8 | 9 => 0,
        65 => 46,
        66 => 26,
        82 => 46,
        83 => 46,
        84 => 34,
        85 => 46,
        _ => 0,
    }
}

/// Whether a 5QI is one of the XR delay-critical GBR 5QIs, 82 to 85
/// (Rel-18, TS 23.501 Table 5.7.4-1).
pub fn is_xr_5qi(qfi: u8) -> (r: bool)
    ensures
        r == (82 <= qfi <= 85),
{
    82 <= qfi && qfi <= 85
}

/// The header length an IPv4 header gives in its IHL field, in octets.
pub open spec fn ihl_octets(h: Seq<u8>) -> int {
    (h[0] & 0x0F) as int * 4
}

/// The sum of the 16-bit words of `h` from `i` up to `len`, with the
/// checksum field (octets 10-11) counted as zero and an odd last octet
/// counted as the high half of a word.
pub open spec fn header_sum(h: Seq<u8>, i: int, len: int) -> int
    decreases len - i,
{
    if i + 1 < len {
        (if i == 10 {
            0
        } else {
            u16_at(h, i) as int
        }) + header_sum(h, i + 2, len)
    } else if i < len {
        h[i] as int * 0x100
    } else {
        0
    }
}

/// Folds the carries of a ones' complement sum into its low 16 bits.
pub open spec fn fold16(s: int) -> int
    decreases s,
{
    if s < 0x1_0000 {
        s
    } else {
        fold16(s % 0x1_0000 + s / 0x1_0000)
    }
}

/// The IPv4 header checksum of `h`: the ones' complement of the folded sum
/// over the header length (bounded by what `h` holds), skipping the
/// checksum field.
pub open spec fn checksum_of(h: Seq<u8>) -> u16 {
    let len = if ihl_octets(h) <= h.len() {
        ihl_octets(h)
    } else {
        h.len() as int
    };
    (0xFFFF - fold16(header_sum(h, 0, len))) as u16
}

/// Computes the IPv4 header checksum over the IHL-derived header length,
/// the checksum field counted as zero.
pub fn ipv4_header_checksum(header: &[u8]) -> (c: u16)
    requires
        header@.len() >= 1,
    ensures
        c == checksum_of(header@),
{
    let b0 = header[0];
    let ihl = ((b0 & 0x0F) as usize) * 4;
    assert(ihl <= 60) by (bit_vector)
        requires
            ihl == ((b0 & 0x0F) as usize) * 4,
    ;
    let len = if ihl <= header.len() {
        ihl
    } else {
        header.len()
    };
    let mut sum: u32 = 0;
    let mut i: usize = 0;
    while i + 1 < len
        invariant
            len <= 60,
            len <= header@.len(),
            i <= len + 1,
            i % 2 == 0,
            sum <= i * 0x8000,
            sum + header_sum(header@, i as int, len as int) == header_sum(header@, 0, len as int),
        decreases len - i,
    {
        if i != 10 {
            sum = sum + read_u16(header, i) as u32;
        }
        i = i + 2;
    }
    if i < len {
        sum = sum + (header[i] as u32) * 0x100;
    }
    assert(header_sum(header@, i as int, len as int) == if i < len { header@[i as int] as int * 0x100 } else { 0 });
    while sum / 0x1_0000 != 0
        invariant
            fold16(sum as int) == fold16(header_sum(header@, 0, len as int)),
        decreases sum,
    {
        sum = sum % 0x1_0000 + sum / 0x1_0000;
    }
    0xFFFF - (sum as u16)
}

/// Whether an IPv4 packet's header checksum is the one its header gives:
/// false for what is not an IPv4 header (shorter than 20 octets, another
/// version, an IHL under 20 octets or beyond the packet).
pub open spec fn checksum_valid(p: Seq<u8>) -> bool {
    &&& p.len() >= 20
    &&& p[0] >> 4u8 == 4
    &&& ihl_octets(p) >= 20
    &&& p.len() >= ihl_octets(p)
    &&& checksum_of(p.subrange(0, ihl_octets(p))) == u16_at(p, 10)
}

/// Whether an IPv4 packet's stored header checksum is correct.
pub fn ipv4_header_checksum_valid(packet: &[u8]) -> (r: bool)
    ensures
        r == checksum_valid(packet@),
{
    if packet.len() < 20 || (packet[0] >> 4u8) != 4 {
        return false;
    }
    let ihl = ((packet[0] & 0x0F) as usize) * 4;
    if ihl < 20 || packet.len() < ihl {
        return false;
    }
    let stored = read_u16(packet, 10);
    ipv4_header_checksum(&packet[0..ihl]) == stored
}

/// The TOS octet with DSCP `dscp` and the ECN bits of `tos`.
pub open spec fn marked_tos(dscp: u8, tos: u8) -> u8 {
    (dscp << 2u8) | (tos & 0x03)
}

/// What DSCP marking does to a packet, when it applies. IPv4 (20 octets at
/// least, a sound IHL): the TOS octet gets the DSCP, keeping ECN, and the
/// header checksum is recomputed. IPv6 (40 octets at least): the Traffic
/// Class spread over octets 0 and 1 is set the same way. Anything else is
/// left alone.
pub open spec fn dscp_marked(p: Seq<u8>, dscp: u8) -> Option<Seq<u8>> {
    if p.len() == 0 {
        None
    } else if (p[0] >> 4u8) & 0x0F == 4 && p.len() >= 20 {
        if ihl_octets(p) < 20 || p.len() < ihl_octets(p) {
            None
        } else {
            let q = p.update(1, marked_tos(dscp, p[1]));
            let c = be16(checksum_of(q.subrange(0, ihl_octets(p))));
            Some(q.update(10, c[0]).update(11, c[1]))
        }
    } else if (p[0] >> 4u8) & 0x0F == 6 && p.len() >= 40 {
        let tc = marked_tos(dscp, p[1]);
        Some(p.update(0, (p[0] & 0xF0) | ((tc >> 4u8) & 0x0F)).update(1, ((tc & 0x0F) << 4u8) | (p[1] & 0x0F)))
    } else {
        None
    }
}

/// Sets the DSCP of an IP packet (see `dscp_marked`); returns whether it
/// was set.
pub fn apply_dscp_to_ip_packet(packet: &mut [u8], dscp: u8) -> (r: bool)
    ensures
        r == dscp_marked(old(packet)@, dscp) is Some,
        match dscp_marked(old(packet)@, dscp) {
            Some(q) => final(packet)@ == q,
            None => final(packet)@ == old(packet)@,
        },
{
    if packet.len() == 0 {
        return false;
    }
    let version = (packet[0] >> 4u8) & 0x0F;
    if version == 4 && packet.len() >= 20 {
        let ihl = ((packet[0] & 0x0F) as usize) * 4;
        if ihl < 20 || packet.len() < ihl {
            return false;
        }
        let ghost before = packet@;
        let tos = (dscp << 2u8) | (packet[1] & 0x03);
        packet[1] = tos;
        let csum = ipv4_header_checksum(&packet[0..ihl]);
        let c = u16_bytes(csum);
        packet[10] = c[0];
        packet[11] = c[1];
        assert(packet@ =~= dscp_marked(before, dscp).unwrap());
        true
    } else if version == 6 && packet.len() >= 40 {
        let ghost before = packet@;
        let b0 = packet[0];
        let b1 = packet[1];
        let tc = (dscp << 2u8) | (b1 & 0x03);
        packet[0] = (b0 & 0xF0) | ((tc >> 4u8) & 0x0F);
        packet[1] = ((tc & 0x0F) << 4u8) | (b1 & 0x0F);
        assert(packet@ =~= dscp_marked(before, dscp).unwrap());
        true
    } else {
        false
    }
}

/// Marks the DSCP of an IP packet (see `apply_dscp_to_ip_packet`).
pub fn mark_dscp(ip_bytes: &mut [u8], dscp: u8)
    ensures
        match dscp_marked(old(ip_bytes)@, dscp) {
            Some(q) => final(ip_bytes)@ == q,
            None => final(ip_bytes)@ == old(ip_bytes)@,
        },
{
    apply_dscp_to_ip_packet(ip_bytes, dscp);
}

/// The header sum does not read the checksum field.
proof fn lemma_header_sum_skips_checksum(a: Seq<u8>, b: Seq<u8>, i: int, len: int)
    requires
        a.len() == b.len(),
        0 <= i,
        i % 2 == 0,
        len % 2 == 0,
        len <= a.len(),
        forall|j: int| 0 <= j < a.len() && j != 10 && j != 11 ==> a[j] == b[j],
    ensures
        header_sum(a, i, len) == header_sum(b, i, len),
    decreases len - i,
{
    if i + 1 < len {
        lemma_header_sum_skips_checksum(a, b, i + 2, len);
    }
}

/// Marking the DSCP of an IPv4 packet leaves a valid header checksum: the
/// checksum is recomputed over the marked header, and the checksum field it
/// is written to is not part of the sum.
pub proof fn lemma_dscp_marking_keeps_checksum_valid(p: Seq<u8>, dscp: u8)
    requires
        dscp_marked(p, dscp) is Some,
        (p[0] >> 4u8) & 0x0F == 4,
    ensures
        checksum_valid(dscp_marked(p, dscp).unwrap()),
{
    let ihl = ihl_octets(p);
    let q = p.update(1, marked_tos(dscp, p[1]));
    let h = q.subrange(0, ihl);
    let c = checksum_of(h);
    let f = dscp_marked(p, dscp).unwrap();
    let b0 = p[0];
    assert((b0 >> 4u8) & 0x0F == 4 ==> b0 >> 4u8 == 4) by (bit_vector);
    assert(ihl % 4 == 0);
    let g = f.subrange(0, ihl);
    assert(g[0] == h[0]);
    lemma_header_sum_skips_checksum(g, h, 0, ihl);
    assert(checksum_of(g) == c);
    lemma_u16_roundtrip(c);
}

/// An IPv4 packet whose checksum field is filled in with the checksum of
/// its header validates.
pub proof fn lemma_filled_checksum_validates(p: Seq<u8>)
    requires
        p.len() >= 20,
        p[0] >> 4u8 == 4,
        20 <= ihl_octets(p) <= p.len(),
    ensures
        ({
            let c = be16(checksum_of(p.subrange(0, ihl_octets(p))));
            checksum_valid(p.update(10, c[0]).update(11, c[1]))
        }),
{
    let ihl = ihl_octets(p);
    let h = p.subrange(0, ihl);
    let c = checksum_of(h);
    lemma_u16_roundtrip(c);
    let f = p.update(10, be16(c)[0]).update(11, be16(c)[1]);
    let g = f.subrange(0, ihl);
    let b0 = p[0];
    assert(((b0 & 0x0F) as int * 4) % 4 == 0);
    assert(g[0] == h[0]);
    lemma_header_sum_skips_checksum(g, h, 0, ihl);
    assert(checksum_of(g) == c);
}

/// The QFI to DSCP table of TS 23.501 Table 5.7.4-1, entry by entry:
/// EF (46) for QFI 1, 65, 82, 83 and 85; AF41 (34) for 2 and 84; AF31 (26)
/// for 3 and 66; AF21 (24) for 4; 18 for 6; AF11 (10) for 7; best effort
/// (0) for every other QFI.
pub proof fn lemma_qfi_dscp_table(qfi: u8)
    ensures
        dscp_of_qfi(1) == 46,
        dscp_of_qfi(2) == 34,
        dscp_of_qfi(3) == 26,
        dscp_of_qfi(4) == 24,
        dscp_of_qfi(5) == 0,
        dscp_of_qfi(6) == 18,
        dscp_of_qfi(7) == 10,
        dscp_of_qfi(8) == 0,
        dscp_of_qfi(9) == 0,
        dscp_of_qfi(65) == 46,
        dscp_of_qfi(66) == 26,
        dscp_of_qfi(82) == 46,
        dscp_of_qfi(83) == 46,
        dscp_of_qfi(84) == 34,
        dscp_of_qfi(85) == 46,
        !(1 <= qfi <= 4 || qfi == 6 || qfi == 7 || qfi == 65 || qfi == 66 || 82 <= qfi <= 85) ==> dscp_of_qfi(qfi)
            == 0,
{
}

/// Folding keeps a sum's value modulo 0xFFFF, gives at most 16 bits, no
/// more than the sum, and nothing but 0 for 0.
proof fn lemma_fold16(s: int)
    requires
        s >= 0,
    ensures
        0 <= fold16(s) <= 0xFFFF,
        fold16(s) <= s,
        fold16(s) % 0xFFFF == s % 0xFFFF,
        s > 0 ==> fold16(s) > 0,
    decreases s,
{
    if s >= 0x1_0000 {
        let q = s / 0x1_0000;
        let r = s % 0x1_0000;
        assert(s == 0x1_0000 * q + r && 0 <= r < 0x1_0000 && q >= 1) by (nonlinear_arith)
            requires
                s >= 0x1_0000,
                q == s / 0x1_0000,
                r == s % 0x1_0000,
        ;
        assert((q + r) % 0xFFFF == s % 0xFFFF) by (nonlinear_arith)
            requires
                s == 0x1_0000 * q + r,
                q >= 0,
                r >= 0,
        {
            assert(s == (q + r) + 0xFFFF * q);
        }
        lemma_fold16(r + q);
    }
}

/// A header sum is not negative.
proof fn lemma_header_sum_nonneg(h: Seq<u8>, i: int, len: int)
    ensures
        header_sum(h, i, len) >= 0,
    decreases len - i,
{
    if i + 1 < len {
        lemma_header_sum_nonneg(h, i + 2, len);
    }
}

/// The IPv4 header checksum is the ones' complement of the folded
/// ones'-complement sum of the header (RFC 1071): adding it to that sum
/// and folding gives 0xFFFF, so that a receiver summing the header with
/// the checksum in place finds all ones.
pub proof fn lemma_checksum_completes_sum(h: Seq<u8>)
    ensures
        ({
            let len = if ihl_octets(h) <= h.len() {
                ihl_octets(h)
            } else {
                h.len() as int
            };
            fold16(header_sum(h, 0, len) + checksum_of(h)) == 0xFFFF
        }),
{
    let len = if ihl_octets(h) <= h.len() {
        ihl_octets(h)
    } else {
        h.len() as int
    };
    let s = header_sum(h, 0, len);
    lemma_header_sum_nonneg(h, 0, len);
    lemma_fold16(s);
    let f = fold16(s);
    let c = checksum_of(h);
    assert(c == 0xFFFF - f);
    let y = s + c;
    assert(y % 0xFFFF == 0) by (nonlinear_arith)
        requires
            y == s + 0xFFFF - f,
            f % 0xFFFF == s % 0xFFFF,
            s >= f,
            f >= 0,
    {
        assert((s - f) % 0xFFFF == 0);
    }
    lemma_fold16(y);
    assert(fold16(y) == 0xFFFF) by (nonlinear_arith)
        requires
            1 <= fold16(y) <= 0xFFFF,
            fold16(y) % 0xFFFF == 0,
    ;
}

/// The checksum of the RFC 1071 style example header 4500 0073 0000 4000
/// 4011 xxxx c0a8 0001 c0a8 00c7 is 0xB861.
pub proof fn lemma_checksum_example()
    ensures
        checksum_of(
            seq![
                0x45u8, 0x00, 0x00, 0x73, 0x00, 0x00, 0x40, 0x00, 0x40, 0x11, 0x00, 0x00, 0xc0, 0xa8, 0x00, 0x01,
                0xc0, 0xa8, 0x00, 0xc7,
            ],
        ) == 0xB861,
{
    let h = seq![
        0x45u8, 0x00, 0x00, 0x73, 0x00, 0x00, 0x40, 0x00, 0x40, 0x11, 0x00, 0x00, 0xc0, 0xa8, 0x00, 0x01,
        0xc0, 0xa8, 0x00, 0xc7,
    ];
    assert(0x45u8 & 0x0F == 5) by (bit_vector);
    assert(ihl_octets(h) == 20);
    assert(header_sum(h, 20, 20) == 0);
    assert(header_sum(h, 18, 20) == 0x00c7);
    assert(header_sum(h, 16, 20) == 0xc0a8 + 0x00c7);
    assert(header_sum(h, 14, 20) == 0x0001 + 0xc0a8 + 0x00c7);
    assert(header_sum(h, 12, 20) == 0xc0a8 + 0x0001 + 0xc0a8 + 0x00c7);
    assert(header_sum(h, 10, 20) == 0xc0a8 + 0x0001 + 0xc0a8 + 0x00c7);
    assert(header_sum(h, 8, 20) == 0x4011 + 0xc0a8 + 0x0001 + 0xc0a8 + 0x00c7);
    assert(header_sum(h, 6, 20) == 0x4000 + 0x4011 + 0xc0a8 + 0x0001 + 0xc0a8 + 0x00c7);
    assert(header_sum(h, 4, 20) == 0x4000 + 0x4011 + 0xc0a8 + 0x0001 + 0xc0a8 + 0x00c7);
    assert(header_sum(h, 2, 20) == 0x0073 + 0x4000 + 0x4011 + 0xc0a8 + 0x0001 + 0xc0a8 + 0x00c7);
    assert(header_sum(h, 0, 20) == 0x4500 + 0x0073 + 0x4000 + 0x4011 + 0xc0a8 + 0x0001 + 0xc0a8 + 0x00c7);
    assert(fold16(0x479E) == 0x479E);
    assert(fold16(0x2479C) == 0x479E);
}

proof fn lemma_tos_bits(dscp: u8, tos: u8)
    by (bit_vector)
    requires
        dscp < 64,
    ensures
        ((dscp << 2u8) | (tos & 0x03)) >> 2u8 == dscp,
        ((dscp << 2u8) | (tos & 0x03)) & 0x03 == tos & 0x03,
{
}

proof fn lemma_ipv6_tc_bits(b0: u8, b1: u8, tc: u8)
    by (bit_vector)
    ensures
        ((b0 & 0xF0) | ((tc >> 4u8) & 0x0F)) >> 4u8 == b0 >> 4u8,
        (((tc & 0x0F) << 4u8) | (b1 & 0x0F)) & 0x0F == b1 & 0x0F,
        ((((b0 & 0xF0) | ((tc >> 4u8) & 0x0F)) & 0x0F) << 4u8) | ((((tc & 0x0F) << 4u8) | (b1 & 0x0F)) >> 4u8)
            == tc,
{
}

/// DSCP marking of a packet: an IPv4 packet's TOS octet takes the DSCP
/// in its upper six bits and keeps its two ECN bits, nothing else but
/// the checksum field changes, and the header checksum stays valid; an
/// IPv6 packet's Traffic Class (the low half of octet 0 and the high half
/// of octet 1) becomes the marked TOS value while the version and the
/// flow label bits in those octets stay, and nothing else changes.
pub proof fn lemma_dscp_marking_sets_class(p: Seq<u8>, dscp: u8)
    requires
        dscp < 64,
        dscp_marked(p, dscp) is Some,
    ensures
        ({
            let q = dscp_marked(p, dscp).unwrap();
            &&& q.len() == p.len()
            &&& (p[0] >> 4u8) & 0x0F == 4 ==> {
                &&& q[1] >> 2u8 == dscp
                &&& q[1] & 0x03 == p[1] & 0x03
                &&& forall|i: int| 0 <= i < p.len() && i != 1 && i != 10 && i != 11 ==> q[i] == p[i]
                &&& checksum_valid(q)
            }
            &&& (p[0] >> 4u8) & 0x0F == 6 ==> {
                &&& q[0] >> 4u8 == p[0] >> 4u8
                &&& q[1] & 0x0F == p[1] & 0x0F
                &&& ((q[0] & 0x0F) << 4u8) | (q[1] >> 4u8) == marked_tos(dscp, p[1])
                &&& forall|i: int| 2 <= i < p.len() ==> q[i] == p[i]
            }
        }),
{
    lemma_tos_bits(dscp, p[1]);
    if (p[0] >> 4u8) & 0x0F == 4 {
        lemma_dscp_marking_keeps_checksum_valid(p, dscp);
    }
    if (p[0] >> 4u8) & 0x0F == 6 {
        lemma_ipv6_tc_bits(p[0], p[1], marked_tos(dscp, p[1]));
    }
}

} // verus!
