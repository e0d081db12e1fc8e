//! Encodings of PFCP information-element values shared by the SMF and the
//! UPF builders (TS 29.244 8.2), as byte sequences.

use vstd::prelude::*;
use crate::wire::{be16, be32, be64};

verus! {

/// The four octets of an IPv4 address when present, nothing otherwise.
pub open spec fn opt_v4(a: Option<[u8; 4]>) -> Seq<u8> {
    match a {
        Some(x) => x@,
        None => Seq::empty(),
    }
}

/// The sixteen octets of an IPv6 address when present, nothing otherwise.
pub open spec fn opt_v6(a: Option<[u8; 16]>) -> Seq<u8> {
    match a {
        Some(x) => x@,
        None => Seq::empty(),
    }
}

/// The single octet `v` when present, nothing otherwise.
pub open spec fn opt_u8(v: Option<u8>) -> Seq<u8> {
    match v {
        Some(x) => seq![x],
        None => Seq::empty(),
    }
}

/// The eight big-endian octets of `v` when present, nothing otherwise.
pub open spec fn opt_be64(v: Option<u64>) -> Seq<u8> {
    match v {
        Some(x) => be64(x),
        None => Seq::empty(),
    }
}

/// The big-endian 32-bit value when present, nothing otherwise.
pub open spec fn opt_be32(v: Option<u32>) -> Seq<u8> {
    match v {
        Some(x) => be32(x),
        None => Seq::empty(),
    }
}

/// The big-endian 16-bit value when present, nothing otherwise.
pub open spec fn opt_be16(v: Option<u16>) -> Seq<u8> {
    match v {
        Some(x) => be16(x),
        None => Seq::empty(),
    }
}

/// `bit` when `on`, zero otherwise: one flag of a flags octet.
pub open spec fn flag(on: bool, bit: u8) -> int {
    if on {
        bit as int
    } else {
        0
    }
}

/// F-SEID value (TS 29.244 8.2.37): flags (V6 = 0x01, V4 = 0x02), the SEID,
/// then the IPv4 and the IPv6 address when present.
pub open spec fn f_seid_value(seid: u64, ipv4: Option<[u8; 4]>, ipv6: Option<[u8; 16]>) -> Seq<u8> {
    seq![(flag(ipv6.is_some(), 0x01) + flag(ipv4.is_some(), 0x02)) as u8] + be64(seid) + opt_v4(
        ipv4,
    ) + opt_v6(ipv6)
}

/// Volume Threshold / Volume Quota value (TS 29.244 8.2.13, 8.2.50): flags
/// (TOVOL = 0x01, ULVOL = 0x02, DLVOL = 0x04) then each present volume.
pub open spec fn volume_value(total: Option<u64>, uplink: Option<u64>, downlink: Option<u64>) -> Seq<u8> {
    seq![(flag(total.is_some(), 0x01) + flag(uplink.is_some(), 0x02) + flag(downlink.is_some(), 0x04)) as u8]
        + opt_be64(total) + opt_be64(uplink) + opt_be64(downlink)
}

/// The position of the first `.` in `s`, or its length when there is none.
pub open spec fn first_dot(s: Seq<u8>) -> nat
    decreases s.len(),
{
    if s.len() == 0 {
        0
    } else if s[0] == 0x2e {
        0
    } else {
        1 + first_dot(s.drop_first())
    }
}

/// A dotted name in DNS label form: each `.`-separated label as its length
/// octet (kept modulo 256) followed by its bytes (TS 29.244 8.2.103,
/// TS 23.003 9.1).
pub open spec fn dns_labels(s: Seq<u8>) -> Seq<u8>
    decreases s.len(),
{
    let p = first_dot(s) as int;
    if p >= s.len() {
        seq![(s.len() % 0x100) as u8] + s
    } else {
        seq![(p % 0x100) as u8] + s.subrange(0, p as int) + dns_labels(s.subrange(p + 1int, s.len() as int))
    }
}

/// The first dot is found by a scan that saw no dot before position `k`.
pub proof fn lemma_first_dot_at(s: Seq<u8>, k: int)
    requires
        0 <= k <= s.len(),
        forall|j: int| 0 <= j < k ==> s[j] != 0x2e,
        k < s.len() ==> s[k] == 0x2e,
    ensures
        first_dot(s) == k,
    decreases s.len(),
{
    if k > 0 {
        lemma_first_dot_at(s.drop_first(), k - 1);
    }
}

/// Encodes a dotted name in DNS label form.
pub fn encode_dns_labels(s: &[u8]) -> (r: Vec<u8>)
    ensures
        r@ == dns_labels(s@),
{
    let n = s.len();
    let mut out: Vec<u8> = Vec::new();
    let mut start: usize = 0;
    let mut i: usize = 0;
    assert(s@.subrange(0, n as int) =~= s@);
    while i < n
        invariant
            n == s@.len(),
            start <= i <= n,
            dns_labels(s@) == out@ + dns_labels(s@.subrange(start as int, n as int)),
            forall|j: int| start <= j < i ==> s@[j] != 0x2e,
        decreases n - i,
    {
        if s[i] == 0x2e {
            let ghost rest = s@.subrange(start as int, n as int);
            proof {
                lemma_first_dot_at(rest, i - start);
                assert(rest.subrange(0, (i - start) as int) =~= s@.subrange(start as int, i as int));
                assert(rest.subrange((i - start) + 1, rest.len() as int) =~= s@.subrange(i + 1, n as int));
            }
            let ghost before = out@;
            out.push(((i - start) % 0x100) as u8);
            out.extend_from_slice(&s[start..i]);
            assert(out@ =~= before + seq![((i - start) % 0x100) as u8] + s@.subrange(start as int, i as int));
            start = i + 1;
        }
        i = i + 1;
    }
    let ghost before = out@;
    let ghost rest = s@.subrange(start as int, n as int);
    proof {
        lemma_first_dot_at(rest, rest.len() as int);
    }
    out.push(((n - start) % 0x100) as u8);
    out.extend_from_slice(&s[start..n]);
    assert(out@ =~= before + seq![((n - start) % 0x100) as u8] + rest);
    out
}

} // verus!
