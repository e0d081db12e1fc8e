//! Small text helpers of the SMF and UPF daemons: URIs of SBI peers, the
//! N4 SEID of an SM context, and the names of a Session Report's Report
//! Type flags. URIs are handled as their UTF-8 bytes.

use vstd::prelude::*;
use vstd::string::StringSliceAdditionalSpecFns;
use vstd::string::StringExecFns;
use crate::text::{lossy_string, utf8_lossy};
use vstd::utf8::{valid_utf8, decode_utf8};

verus! {

/// The bytes of `"https://"`.
pub open spec fn https_prefix() -> Seq<u8> {
    seq![0x68u8, 0x74, 0x74, 0x70, 0x73, 0x3a, 0x2f, 0x2f]
}

/// The bytes of `"http://"`.
pub open spec fn http_prefix() -> Seq<u8> {
    seq![0x68u8, 0x74, 0x74, 0x70, 0x3a, 0x2f, 0x2f]
}

/// Where the part after the scheme starts: 8 after `https://`, 7 after
/// `http://`, else 0.
pub open spec fn after_scheme(u: Seq<u8>) -> int {
    if u.len() >= 8 && u.subrange(0, 8) == https_prefix() {
        8
    } else if u.len() >= 7 && u.subrange(0, 7) == http_prefix() {
        7
    } else {
        0
    }
}

/// The index of the first `b` in `u` at or after `from`, if any.
pub open spec fn find_from(u: Seq<u8>, b: u8, from: int) -> Option<int>
    decreases u.len() - from,
{
    if from < 0 || from >= u.len() {
        None
    } else if u[from] == b {
        Some(from)
    } else {
        find_from(u, b, from + 1)
    }
}

/// The index of the last `b` in `u` before `end` and at or after `start`,
/// if any.
pub open spec fn find_last(u: Seq<u8>, b: u8, start: int, end: int) -> Option<int>
    decreases end - start,
{
    if end <= start {
        None
    } else if u[end - 1] == b {
        Some(end - 1)
    } else {
        find_last(u, b, start, end - 1)
    }
}

/// Finds the first `b` at or after `from` (see `find_from`).
pub(crate) fn find_byte(u: &[u8], b: u8, from: usize) -> (r: Option<usize>)
    ensures
        match r {
            Some(i) => find_from(u@, b, from as int) == Some(i as int),
            None => find_from(u@, b, from as int) is None,
        },
{
    let n = u.len();
    let mut i = from;
    while i < n
        invariant
            n == u@.len(),
            from <= i,
            find_from(u@, b, i as int) == find_from(u@, b, from as int),
        decreases n - i,
    {
        if u[i] == b {
            return Some(i);
        }
        i = i + 1;
    }
    None
}

/// Finds the last `b` in `start..end` (see `find_last`).
fn find_byte_last(u: &[u8], b: u8, start: usize, end: usize) -> (r: Option<usize>)
    requires
        end <= u@.len(),
    ensures
        match r {
            Some(i) => find_last(u@, b, start as int, end as int) == Some(i as int),
            None => find_last(u@, b, start as int, end as int) is None,
        },
{
    let mut e = end;
    while e > start
        invariant
            e <= end,
            end <= u@.len(),
            find_last(u@, b, start as int, e as int) == find_last(u@, b, start as int, end as int),
        decreases e,
    {
        if u[e - 1] == b {
            return Some(e - 1);
        }
        e = e - 1;
    }
    None
}

/// Where the part after the scheme starts (see `after_scheme`).
fn scheme_end(u: &[u8]) -> (r: usize)
    ensures
        r == after_scheme(u@),
{
    if u.len() >= 8 && u[0] == 0x68 && u[1] == 0x74 && u[2] == 0x74 && u[3] == 0x70 && u[4] == 0x73 && u[5] == 0x3a
        && u[6] == 0x2f && u[7] == 0x2f {
        assert(u@.subrange(0, 8) =~= https_prefix());
        8
    } else if u.len() >= 7 && u[0] == 0x68 && u[1] == 0x74 && u[2] == 0x74 && u[3] == 0x70 && u[4] == 0x3a && u[5]
        == 0x2f && u[6] == 0x2f {
        assert(u@.subrange(0, 7) =~= http_prefix());
        proof {
            if u@.len() >= 8 && u@.subrange(0, 8) == https_prefix() {
                assert(u@.subrange(0, 8)[4] == u@[4]);
            }
        }
        7
    } else {
        proof {
            if u@.len() >= 8 && u@.subrange(0, 8) == https_prefix() {
                assert(u@.subrange(0, 8)[0] == u@[0]);
                assert(u@.subrange(0, 8)[1] == u@[1]);
                assert(u@.subrange(0, 8)[2] == u@[2]);
                assert(u@.subrange(0, 8)[3] == u@[3]);
                assert(u@.subrange(0, 8)[4] == u@[4]);
                assert(u@.subrange(0, 8)[5] == u@[5]);
                assert(u@.subrange(0, 8)[6] == u@[6]);
                assert(u@.subrange(0, 8)[7] == u@[7]);
            }
            if u@.len() >= 7 && u@.subrange(0, 7) == http_prefix() {
                assert(u@.subrange(0, 7)[0] == u@[0]);
                assert(u@.subrange(0, 7)[1] == u@[1]);
                assert(u@.subrange(0, 7)[2] == u@[2]);
                assert(u@.subrange(0, 7)[3] == u@[3]);
                assert(u@.subrange(0, 7)[4] == u@[4]);
                assert(u@.subrange(0, 7)[5] == u@[5]);
                assert(u@.subrange(0, 7)[6] == u@[6]);
            }
        }
        0
    }
}

/// Whether every byte is an ASCII digit.
pub open spec fn all_digits(s: Seq<u8>) -> bool {
    forall|i: int| 0 <= i < s.len() ==> 0x30 <= #[trigger] s[i] <= 0x39
}

/// The value of a string of decimal digits.
pub open spec fn dec_value(s: Seq<u8>) -> int
    decreases s.len(),
{
    if s.len() == 0 {
        0
    } else {
        dec_value(s.drop_last()) * 10 + (s.last() - 0x30)
    }
}

/// What `str::parse` makes of an unsigned decimal no larger than `max`:
/// an optional `+`, then one or more digits.
pub open spec fn parse_unsigned(s: Seq<u8>, max: int) -> Option<int> {
    let d = if s.len() > 0 && s[0] == 0x2b {
        s.drop_first()
    } else {
        s
    };
    if d.len() == 0 || !all_digits(d) || dec_value(d) > max {
        None
    } else {
        Some(dec_value(d))
    }
}

/// A longer string of digits has a value at least that of its prefix.
proof fn lemma_dec_value_grows(s: Seq<u8>, i: int)
    requires
        all_digits(s),
        0 <= i <= s.len(),
    ensures
        dec_value(s) >= dec_value(s.take(i)),
        dec_value(s.take(i)) >= 0,
    decreases s.len(),
{
    if s.len() > 0 {
        assert(all_digits(s.drop_last()));
        if i < s.len() {
            lemma_dec_value_grows(s.drop_last(), i);
            assert(s.drop_last().take(i) =~= s.take(i));
        } else {
            assert(s.take(i) =~= s);
            lemma_dec_value_grows(s.drop_last(), 0);
        }
    }
}

/// Parses an unsigned decimal number of `s[start..end]` no larger than
/// `max` (see `parse_unsigned`).
pub fn parse_unsigned_range(s: &[u8], start: usize, end: usize, max: u64) -> (r: Option<u64>)
    requires
        start <= end <= s@.len(),
    ensures
        match r {
            Some(v) => parse_unsigned(s@.subrange(start as int, end as int), max as int) == Some(v as int),
            None => parse_unsigned(s@.subrange(start as int, end as int), max as int) is None,
        },
{
    let ghost full = s@.subrange(start as int, end as int);
    let mut i = start;
    if i < end && s[i] == 0x2b {
        i = i + 1;
    }
    let ghost d = s@.subrange(i as int, end as int);
    assert(d == (if full.len() > 0 && full[0] == 0x2b {
        full.drop_first()
    } else {
        full
    })) by {
        if full.len() > 0 && full[0] == 0x2b {
            assert(full.drop_first() =~= d);
        } else {
            assert(full =~= d);
        }
    }
    if i == end {
        return None;
    }
    let d0 = i;
    let mut acc: u128 = 0;
    while i < end
        invariant
            d0 <= i <= end,
            end <= s@.len(),
            d == s@.subrange(d0 as int, end as int),
            full == s@.subrange(start as int, end as int),
            d == (if full.len() > 0 && full[0] == 0x2b {
                full.drop_first()
            } else {
                full
            }),
            d.len() > 0,
            all_digits(d.take(i - d0)),
            acc == dec_value(d.take(i - d0)),
            acc <= max,
        decreases end - i,
    {
        let c = s[i];
        assert(d[i - d0] == c);
        if c < 0x30 || c > 0x39 {
            assert(!all_digits(d));
            return None;
        }
        proof {
            assert(d.take(i - d0 + 1).drop_last() =~= d.take(i - d0));
            assert(d.take(i - d0 + 1).last() == c);
            assert(all_digits(d.take(i - d0 + 1)));
        }
        acc = acc * 10 + (c - 0x30) as u128;
        i = i + 1;
        if acc > max as u128 {
            proof {
                if all_digits(d) {
                    lemma_dec_value_grows(d, i - d0);
                }
            }
            return None;
        }
    }
    assert(d.take(d.len() as int) =~= d);
    Some(acc as u64)
}

/// A host and port parsed from a URI: `None` when the port after the
/// last `:` is not a number fitting 16 bits.
pub open spec fn host_port_of(u: Seq<u8>) -> Option<(Seq<u8>, u16)> {
    let a = after_scheme(u);
    let end = match find_from(u, 0x2f, a) {
        Some(i) => i,
        None => u.len() as int,
    };
    match find_last(u, 0x3a, a, end) {
        Some(c) => match parse_unsigned(u.subrange(c + 1, end), 0xFFFF) {
            Some(p) => Some((u.subrange(a, c), p as u16)),
            None => None,
        },
        None => Some((u.subrange(a, end), if a == 8 { 443u16 } else { 80u16 })),
    }
}

/// Parses the host and port of a URI such as `http://localhost:7777`: the
/// scheme (`https://` or `http://`) is dropped, then any path from the
/// first `/`; the port follows the last `:`, else it is the scheme's
/// default (443 for `https://`, else 80). `None` when the port is not a
/// number fitting 16 bits.
pub fn parse_host_port(uri: &str) -> (r: Option<(String, u16)>)
    ensures
        match host_port_of(uri.spec_bytes()) {
            Some((h, p)) => r matches Some(x) && x.0@ == utf8_lossy(h) && (valid_utf8(h) ==> x.0@ == decode_utf8(h))
                && x.1 == p,
            None => r is None,
        },
{
    let u = uri.as_bytes();
    let a = scheme_end(u);
    let end = match find_byte(u, 0x2f, a) {
        Some(i) => i,
        None => u.len(),
    };
    proof {
        if find_from(u@, 0x2f, a as int) is Some {
            lemma_find_from_bounds(u@, 0x2f, a as int);
        }
    }
    match find_byte_last(u, 0x3a, a, end) {
        Some(c) => {
            proof {
                lemma_find_last_bounds(u@, 0x3a, a as int, end as int);
            }
            match parse_unsigned_range(u, c + 1, end, 0xFFFF) {
                Some(p) => Some((lossy_string(&u[a..c]), p as u16)),
                None => None,
            }
        },
        None => {
            let port: u16 = if a == 8 {
                443
            } else {
                80
            };
            assert(a <= end);
            Some((lossy_string(&u[a..end]), port))
        },
    }
}

/// A byte found from `from` is at or after it.
pub proof fn lemma_find_from_bounds(u: Seq<u8>, b: u8, from: int)
    requires
        find_from(u, b, from) is Some,
    ensures
        from <= find_from(u, b, from).unwrap() < u.len(),
    decreases u.len() - from,
{
    if from >= 0 && from < u.len() && u[from] != b {
        lemma_find_from_bounds(u, b, from + 1);
    }
}

/// A byte found in `start..end` is there.
proof fn lemma_find_last_bounds(u: Seq<u8>, b: u8, start: int, end: int)
    requires
        find_last(u, b, start, end) is Some,
    ensures
        start <= find_last(u, b, start, end).unwrap() < end,
    decreases end - start,
{
    if end > start && u[end - 1] != b {
        lemma_find_last_bounds(u, b, start, end - 1);
    }
}

/// The path (and query) of a URI: from the first `/` after the scheme,
/// else `/`.
pub open spec fn path_of(u: Seq<u8>) -> Option<Seq<u8>> {
    match find_from(u, 0x2f, after_scheme(u)) {
        Some(i) => Some(u.subrange(i, u.len() as int)),
        None => None,
    }
}

/// Extracts the path (and query) of an absolute or relative URI (see
/// `path_of`); `/` when it has none.
pub fn uri_path(uri: &str) -> (r: String)
    ensures
        match path_of(uri.spec_bytes()) {
            Some(p) => r@ == utf8_lossy(p) && (valid_utf8(p) ==> r@ == decode_utf8(p)),
            None => r@ == "/"@,
        },
{
    let u = uri.as_bytes();
    let a = scheme_end(u);
    match find_byte(u, 0x2f, a) {
        Some(i) => {
            proof {
                lemma_find_from_bounds(u@, 0x2f, a as int);
            }
            lossy_string(&u[i..u.len()])
        },
        None => "/".to_owned(),
    }
}

/// The IPv4 address of a transport address of four octets; `None` for
/// another length (such as an IPv6 address).
pub fn ipv4_from_octets(octets: &[u8]) -> (r: Option<[u8; 4]>)
    ensures
        octets@.len() == 4 ==> (r matches Some(a) && a@ == octets@),
        octets@.len() != 4 ==> r is None,
{
    if octets.len() == 4 {
        let a = [octets[0], octets[1], octets[2], octets[3]];
        assert(a@ =~= octets@);
        Some(a)
    } else {
        None
    }
}

/// The SMF-side N4 SEID of an SM context: its reference read as a decimal
/// number (1 when it is not one), with bit 0x1000 set.
pub fn smf_n4_seid_for(sm_context_ref: &str) -> (seid: u64)
    ensures
        seid == (match parse_unsigned(sm_context_ref.spec_bytes(), 0xFFFF_FFFF_FFFF_FFFF) {
            Some(v) => v as u64,
            None => 1u64,
        }) | 0x1000,
{
    let u = sm_context_ref.as_bytes();
    assert(u@.subrange(0, u@.len() as int) =~= u@);
    let v = match parse_unsigned_range(u, 0, u.len(), 0xFFFF_FFFF_FFFF_FFFF) {
        Some(v) => v,
        None => 1,
    };
    v | 0x1000
}

/// The base URI of this SMF's SBI server: the one advertised, else
/// `http://127.0.0.1:7777`.
pub fn self_sbi_uri(advertised: Option<String>) -> (r: String)
    ensures
        match advertised {
            Some(u) => r@ == u@,
            None => r@ == "http://127.0.0.1:7777"@,
        },
{
    match advertised {
        Some(u) => u,
        None => "http://127.0.0.1:7777".to_owned(),
    }
}

/// Texts joined with a separator between them.
pub open spec fn joined(parts: Seq<Seq<char>>, sep: Seq<char>) -> Seq<char>
    decreases parts.len(),
{
    if parts.len() == 0 {
        Seq::empty()
    } else if parts.len() == 1 {
        parts[0]
    } else {
        joined(parts.drop_last(), sep) + sep + parts.last()
    }
}

/// The parts with `sep` between them.
fn join_strs(parts: &Vec<&str>, sep: &str) -> (s: String)
    ensures
        s@ == joined(parts@.map_values(|p: &str| p@), sep@),
{
    let ghost views = parts@.map_values(|p: &str| p@);
    let mut out = String::new();
    let mut i: usize = 0;
    while i < parts.len()
        invariant
            i <= parts@.len(),
            views == parts@.map_values(|p: &str| p@),
            out@ == joined(views.take(i as int), sep@),
        decreases parts@.len() - i,
    {
        proof {
            assert(views.take(i + 1).drop_last() =~= views.take(i as int));
            assert(views.take(i + 1).last() == parts@[i as int]@);
        }
        if i > 0 {
            out.append(sep);
        }
        out.append(parts[i]);
        proof {
            if i == 0 {
                assert(views.take(1) =~= seq![parts@[0]@]);
                assert(out@ =~= parts@[0]@);
            }
        }
        i = i + 1;
    }
    assert(views.take(parts@.len() as int) =~= views);
    out
}

/// The names of the Report Type flags (TS 29.244 8.2.21), from bit 1 up.
pub open spec fn report_flag_name(i: int) -> Seq<char> {
    if i == 0 {
        "DLDR (Downlink Data Report)"@
    } else if i == 1 {
        "USAR (Usage Report)"@
    } else if i == 2 {
        "ERIR (Error Indication Report)"@
    } else if i == 3 {
        "UPIR (User Plane Inactivity Report)"@
    } else if i == 4 {
        "TMIR (TSC Management Information Report)"@
    } else if i == 5 {
        "SESR (Session Report)"@
    } else {
        "UISR (UP Initiated Session Request)"@
    }
}

/// The names of the flags set among the first `n` (bit 8 is spare).
pub open spec fn set_flag_names(rt: u8, n: int) -> Seq<Seq<char>>
    decreases n,
{
    if n <= 0 {
        Seq::empty()
    } else if n > 7 {
        set_flag_names(rt, 7)
    } else {
        let rest = set_flag_names(rt, n - 1);
        if (rt >> ((n - 1) as u8)) & 1 == 1 {
            rest.push(report_flag_name(n - 1))
        } else {
            rest
        }
    }
}

/// The name of a Report Type flag.
fn flag_name(i: u8) -> (s: &'static str)
    requires
        i < 7,
    ensures
        s@ == report_flag_name(i as int),
{
    if i == 0 {
        "DLDR (Downlink Data Report)"
    } else if i == 1 {
        "USAR (Usage Report)"
    } else if i == 2 {
        "ERIR (Error Indication Report)"
    } else if i == 3 {
        "UPIR (User Plane Inactivity Report)"
    } else if i == 4 {
        "TMIR (TSC Management Information Report)"
    } else if i == 5 {
        "SESR (Session Report)"
    } else {
        "UISR (UP Initiated Session Request)"
    }
}

/// Renders a Report Type octet as the names of its set flags, separated
/// by `, `; `NONE` when none is set.
pub fn report_type_string(report_type: u8) -> (s: String)
    ensures
        set_flag_names(report_type, 7).len() == 0 ==> s@ == "NONE"@,
        set_flag_names(report_type, 7).len() > 0 ==> s@ == joined(set_flag_names(report_type, 7), ", "@),
{
    let mut names: Vec<&str> = Vec::new();
    let mut i: u8 = 0;
    while i < 7
        invariant
            i <= 7,
            names@.map_values(|p: &str| p@) == set_flag_names(report_type, i as int),
        decreases 7 - i,
    {
        let ghost before = names@;
        if (report_type >> i) & 1 == 1 {
            names.push(flag_name(i));
            assert(names@.map_values(|p: &str| p@) =~= before.map_values(|p: &str| p@).push(report_flag_name(i as int)));
        }
        i = i + 1;
    }
    if names.len() == 0 {
        "NONE".to_owned()
    } else {
        join_strs(&names, ", ")
    }
}

} // verus!
