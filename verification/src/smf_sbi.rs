//! Where the SMF's SBI server sends a request (TS 29.502, TS 29.508): the
//! service, resource and method of its URI decide the handler, and the
//! checks an SM Context Create request must pass before it is handled.

use vstd::prelude::*;
use vstd::string::StringSliceAdditionalSpecFns;
use crate::sbi_text::{find_from, find_byte, lemma_find_from_bounds};
use crate::text::{lossy_string, utf8_lossy};
use vstd::utf8::{valid_utf8, decode_utf8};

verus! {

/// What an SBI request is routed to.
#[derive(Debug, Clone, Copy, PartialEq, Eq)]
pub enum SbiRouteKind {
    /// POST /nsmf-pdusession/v1/sm-contexts
    SmContextCreate,
    /// POST /nsmf-pdusession/v1/sm-contexts/{ref}/modify
    SmContextUpdate,
    /// POST /nsmf-pdusession/v1/sm-contexts/{ref}/release
    SmContextRelease,
    /// POST /nsmf-pdusession/v1/sm-contexts/{ref}/retrieve
    SmContextRetrieve,
    /// POST /nsmf-pdusession/v1/pdu-sessions
    PduSessionCreate,
    /// POST /nsmf-pdusession/v1/pdu-sessions/{ref}/modify
    PduSessionUpdate,
    /// POST /nsmf-pdusession/v1/pdu-sessions/{ref}/release
    PduSessionRelease,
    /// POST /nsmf-event-exposure/v1/subscriptions
    EventSubscribe,
    /// DELETE /nsmf-event-exposure/v1/subscriptions/{id}
    EventUnsubscribe,
    /// POST /nsmf-callback/v1/sm-policy-notify/{ref}[/update]
    SmPolicyUpdateNotify,
    /// POST /nsmf-callback/v1/sm-policy-notify/{ref}/terminate
    SmPolicyTerminateNotify,
    /// POST /nsmf-callback/v1/n1-n2-failure/{ref}
    N1N2TransferFailure,
    /// POST /nsmf-callback/v1/amf-status/{ref}
    AmfStatusChange,
    /// 400: an unsubscription without its ID
    MissingSubscriptionId,
    /// 400: a policy notification with an action other than update or
    /// terminate
    UnknownNotifyAction,
    /// 400: a callback without its SM context reference
    MissingSmContextRef,
    /// 404: fewer than three path segments
    InvalidPath,
    /// 404: no handler
    UnknownEndpoint,
}

/// A routed request: the handler, and the path segment it is for (the
/// context, session or subscription reference, or the unknown action).
#[derive(Debug, Clone)]
pub struct SbiRoute {
    pub kind: SbiRouteKind,
    pub target: Option<String>,
}

/// Where the path of a URI ends: at its first `?`, else at its end.
pub open spec fn path_end(u: Seq<u8>) -> int {
    match find_from(u, 0x3f, 0) {
        Some(i) => i,
        None => u.len() as int,
    }
}

/// The index of the first byte at or after `i` that is not a `/`.
pub open spec fn skip_slashes(s: Seq<u8>, i: int) -> int
    decreases s.len() - i,
{
    if 0 <= i < s.len() && s[i] == 0x2f {
        skip_slashes(s, i + 1)
    } else {
        i
    }
}

/// The `/`-separated segments of `s` from `start` on; an empty text has
/// one empty segment.
pub open spec fn segments(s: Seq<u8>, start: int) -> Seq<Seq<u8>>
    decreases s.len() - start,
{
    if start < 0 || start > s.len() {
        Seq::empty()
    } else {
        match find_from(s, 0x2f, start) {
            Some(i) => {
                proof {
                    lemma_find_from_bounds(s, 0x2f, start);
                }
                seq![s.subrange(start, i)] + segments(s, i + 1)
            },
            None => seq![s.subrange(start, s.len() as int)],
        }
    }
}

/// The segments of a URI's path, leading slashes left out.
pub open spec fn path_segments(u: Seq<u8>) -> Seq<Seq<u8>> {
    let p = u.subrange(0, path_end(u));
    segments(p, skip_slashes(p, 0))
}

/// Whether some bytes are those of a text.
pub open spec fn is_text(b: Seq<u8>, t: &str) -> bool {
    b == t.spec_bytes()
}

/// Whether the fifth segment is there and is the given text.
pub open spec fn fifth_is(p: Seq<Seq<u8>>, t: &str) -> bool {
    p.len() >= 5 && is_text(p[4], t)
}

/// The handler of a request with method `m` and path segments `p`, and
/// the index of the segment it is for.
pub open spec fn route_of(m: Seq<u8>, p: Seq<Seq<u8>>) -> (SbiRouteKind, Option<int>) {
    if p.len() < 3 {
        (SbiRouteKind::InvalidPath, None)
    } else {
        let post = is_text(m, "POST");
        let has_id = p.len() >= 4;
        if is_text(p[0], "nsmf-pdusession") && is_text(p[2], "sm-contexts") && post {
            if !has_id {
                (SbiRouteKind::SmContextCreate, None)
            } else if fifth_is(p, "modify") {
                (SbiRouteKind::SmContextUpdate, Some(3))
            } else if fifth_is(p, "release") {
                (SbiRouteKind::SmContextRelease, Some(3))
            } else if fifth_is(p, "retrieve") {
                (SbiRouteKind::SmContextRetrieve, Some(3))
            } else {
                (SbiRouteKind::UnknownEndpoint, None)
            }
        } else if is_text(p[0], "nsmf-pdusession") && is_text(p[2], "pdu-sessions") && post {
            if !has_id {
                (SbiRouteKind::PduSessionCreate, None)
            } else if fifth_is(p, "modify") {
                (SbiRouteKind::PduSessionUpdate, Some(3))
            } else if fifth_is(p, "release") {
                (SbiRouteKind::PduSessionRelease, Some(3))
            } else {
                (SbiRouteKind::UnknownEndpoint, None)
            }
        } else if is_text(p[0], "nsmf-event-exposure") && is_text(p[2], "subscriptions") && post {
            (SbiRouteKind::EventSubscribe, None)
        } else if is_text(p[0], "nsmf-event-exposure") && is_text(p[2], "subscriptions") && is_text(m, "DELETE") {
            if has_id {
                (SbiRouteKind::EventUnsubscribe, Some(3))
            } else {
                (SbiRouteKind::MissingSubscriptionId, None)
            }
        } else if is_text(p[0], "nsmf-callback") && is_text(p[2], "sm-policy-notify") && post {
            if !has_id {
                (SbiRouteKind::MissingSmContextRef, None)
            } else if p.len() < 5 || is_text(p[4], "update") {
                (SbiRouteKind::SmPolicyUpdateNotify, Some(3))
            } else if is_text(p[4], "terminate") {
                (SbiRouteKind::SmPolicyTerminateNotify, Some(3))
            } else {
                (SbiRouteKind::UnknownNotifyAction, Some(4))
            }
        } else if is_text(p[0], "nsmf-callback") && is_text(p[2], "n1-n2-failure") && post {
            if has_id {
                (SbiRouteKind::N1N2TransferFailure, Some(3))
            } else {
                (SbiRouteKind::MissingSmContextRef, None)
            }
        } else if is_text(p[0], "nsmf-callback") && is_text(p[2], "amf-status") && post {
            if has_id {
                (SbiRouteKind::AmfStatusChange, Some(3))
            } else {
                (SbiRouteKind::MissingSmContextRef, None)
            }
        } else {
            (SbiRouteKind::UnknownEndpoint, None)
        }
    }
}

/// Whether `b[r.0..r.1]` are the bytes of `t`.
fn range_is(b: &[u8], r: (usize, usize), t: &str) -> (e: bool)
    requires
        r.0 <= r.1 <= b@.len(),
    ensures
        e == is_text(b@.subrange(r.0 as int, r.1 as int), t),
{
    let tb = t.as_bytes();
    if r.1 - r.0 != tb.len() {
        return false;
    }
    let mut i: usize = 0;
    while i < tb.len()
        invariant
            r.0 <= r.1 <= b@.len(),
            r.1 - r.0 == tb@.len(),
            i <= tb@.len(),
            tb@ == t.spec_bytes(),
            forall|j: int| 0 <= j < i ==> b@[r.0 + j] == tb@[j],
        decreases tb@.len() - i,
    {
        if b[r.0 + i] != tb[i] {
            assert(b@.subrange(r.0 as int, r.1 as int)[i as int] != tb@[i as int]);
            return false;
        }
        i = i + 1;
    }
    assert(b@.subrange(r.0 as int, r.1 as int) =~= tb@);
    true
}

/// The `/`-separated segments of `s` from `start` on, as index ranges
/// (see `segments`).
fn segment_ranges(s: &[u8], start: usize) -> (rs: Vec<(usize, usize)>)
    requires
        start <= s@.len(),
    ensures
        rs@.len() == segments(s@, start as int).len(),
        forall|k: int|
            0 <= k < rs@.len() ==> (#[trigger] rs@[k]).0 <= rs@[k].1 <= s@.len() && s@.subrange(
                rs@[k].0 as int,
                rs@[k].1 as int,
            ) == segments(s@, start as int)[k],
{
    let ghost all = segments(s@, start as int);
    let mut rs: Vec<(usize, usize)> = Vec::new();
    let mut at = start;
    let len = s.len();
    loop
        invariant_except_break
            len == s@.len(),
            at <= s@.len(),
            forall|k: int| 0 <= k < rs@.len() ==> (#[trigger] rs@[k]).0 <= rs@[k].1 <= s@.len(),
            rs@.map_values(|r: (usize, usize)| s@.subrange(r.0 as int, r.1 as int)) + segments(s@, at as int) == all,
        ensures
            forall|k: int| 0 <= k < rs@.len() ==> (#[trigger] rs@[k]).0 <= rs@[k].1 <= s@.len(),
            rs@.map_values(|r: (usize, usize)| s@.subrange(r.0 as int, r.1 as int)) == all,
        decreases s@.len() - at,
    {
        let ghost before = rs@;
        match find_byte(s, 0x2f, at) {
            Some(i) => {
                proof {
                    lemma_find_from_bounds(s@, 0x2f, at as int);
                }
                assert(i < len);
                rs.push((at, i));
                proof {
                    assert(segments(s@, at as int) == seq![s@.subrange(at as int, i as int)] + segments(
                        s@,
                        i + 1,
                    ));
                    assert(rs@.map_values(|r: (usize, usize)| s@.subrange(r.0 as int, r.1 as int)) =~= before.map_values(
                        |r: (usize, usize)| s@.subrange(r.0 as int, r.1 as int),
                    ).push(s@.subrange(at as int, i as int)));
                    assert(rs@.map_values(|r: (usize, usize)| s@.subrange(r.0 as int, r.1 as int)) + segments(
                        s@,
                        i + 1,
                    ) =~= all);
                }
                at = i + 1;
            },
            None => {
                rs.push((at, s.len()));
                proof {
                    assert(rs@.map_values(|r: (usize, usize)| s@.subrange(r.0 as int, r.1 as int)) =~= before.map_values(
                        |r: (usize, usize)| s@.subrange(r.0 as int, r.1 as int),
                    ).push(s@.subrange(at as int, s@.len() as int)));
                    assert(rs@.map_values(|r: (usize, usize)| s@.subrange(r.0 as int, r.1 as int)) =~= all);
                }
                break;
            },
        }
    }
    proof {
        assert forall|k: int| 0 <= k < rs@.len() implies s@.subrange(rs@[k].0 as int, rs@[k].1 as int) == all[k] by {
            assert(rs@.map_values(|r: (usize, usize)| s@.subrange(r.0 as int, r.1 as int))[k] == s@.subrange(
                rs@[k].0 as int,
                rs@[k].1 as int,
            ));
        }
    }
    rs
}

/// Routes an SBI request by its method and URI (see `route_of`).
pub fn route_sbi_request(method: &str, uri: &str) -> (r: SbiRoute)
    ensures
        ({
            let p = path_segments(uri.spec_bytes());
            let (kind, target) = route_of(method.spec_bytes(), p);
            &&& r.kind == kind
            &&& match target {
                Some(i) => r.target matches Some(t) && t@ == utf8_lossy(p[i]) && (valid_utf8(p[i]) ==> t@
                    == decode_utf8(p[i])),
                None => r.target is None,
            }
        }),
{
    let u = uri.as_bytes();
    let end = match find_byte(u, 0x3f, 0) {
        Some(i) => {
            proof {
                lemma_find_from_bounds(u@, 0x3f, 0);
            }
            i
        },
        None => u.len(),
    };
    let q = &u[0..end];
    assert(q@ == u@.subrange(0, path_end(u@)));
    let mut start: usize = 0;
    while start < q.len() && q[start] == 0x2f
        invariant
            start <= q@.len(),
            skip_slashes(q@, start as int) == skip_slashes(q@, 0),
        decreases q@.len() - start,
    {
        start = start + 1;
    }
    let rs = segment_ranges(q, start);
    let ghost p = path_segments(u@);
    assert(p == segments(q@, start as int));
    let m = method.as_bytes();
    let n = rs.len();
    let ghost spec_route = route_of(m@, p);
    if n < 3 {
        return SbiRoute { kind: SbiRouteKind::InvalidPath, target: None };
    }
    let post = range_is(m, (0, m.len()), "POST");
    let delete = range_is(m, (0, m.len()), "DELETE");
    assert(m@.subrange(0, m@.len() as int) =~= m@);
    let has_id = n >= 4;
    let s0 = rs[0];
    let s2 = rs[2];
    proof {
        assert(q@.subrange(s0.0 as int, s0.1 as int) == p[0]);
        assert(q@.subrange(s2.0 as int, s2.1 as int) == p[2]);
        if n >= 5 {
            assert(q@.subrange(rs@[4].0 as int, rs@[4].1 as int) == p[4]);
        }
        assert(p.len() == n);
    }
    let fifth_modify = n >= 5 && range_is(q, rs[4], "modify");
    let fifth_release = n >= 5 && range_is(q, rs[4], "release");
    let fifth_retrieve = n >= 5 && range_is(q, rs[4], "retrieve");
    assert(post == is_text(m@, "POST"));
    assert(delete == is_text(m@, "DELETE"));
    assert(fifth_modify == fifth_is(p, "modify"));
    assert(fifth_release == fifth_is(p, "release"));
    assert(fifth_retrieve == fifth_is(p, "retrieve"));
    let kind: SbiRouteKind;
    let mut target: Option<usize> = None;
    if range_is(q, s0, "nsmf-pdusession") && range_is(q, s2, "sm-contexts") && post {
        if !has_id {
            kind = SbiRouteKind::SmContextCreate;
        } else if fifth_modify {
            kind = SbiRouteKind::SmContextUpdate;
            target = Some(3);
        } else if fifth_release {
            kind = SbiRouteKind::SmContextRelease;
            target = Some(3);
        } else if fifth_retrieve {
            kind = SbiRouteKind::SmContextRetrieve;
            target = Some(3);
        } else {
            kind = SbiRouteKind::UnknownEndpoint;
        }
    } else if range_is(q, s0, "nsmf-pdusession") && range_is(q, s2, "pdu-sessions") && post {
        if !has_id {
            kind = SbiRouteKind::PduSessionCreate;
        } else if fifth_modify {
            kind = SbiRouteKind::PduSessionUpdate;
            target = Some(3);
        } else if fifth_release {
            kind = SbiRouteKind::PduSessionRelease;
            target = Some(3);
        } else {
            kind = SbiRouteKind::UnknownEndpoint;
        }
    } else if range_is(q, s0, "nsmf-event-exposure") && range_is(q, s2, "subscriptions") && post {
        kind = SbiRouteKind::EventSubscribe;
    } else if range_is(q, s0, "nsmf-event-exposure") && range_is(q, s2, "subscriptions") && delete {
        if has_id {
            kind = SbiRouteKind::EventUnsubscribe;
            target = Some(3);
        } else {
            kind = SbiRouteKind::MissingSubscriptionId;
        }
    } else if range_is(q, s0, "nsmf-callback") && range_is(q, s2, "sm-policy-notify") && post {
        if !has_id {
            kind = SbiRouteKind::MissingSmContextRef;
        } else if n < 5 || range_is(q, rs[4], "update") {
            kind = SbiRouteKind::SmPolicyUpdateNotify;
            target = Some(3);
        } else if range_is(q, rs[4], "terminate") {
            kind = SbiRouteKind::SmPolicyTerminateNotify;
            target = Some(3);
        } else {
            kind = SbiRouteKind::UnknownNotifyAction;
            target = Some(4);
        }
    } else if range_is(q, s0, "nsmf-callback") && range_is(q, s2, "n1-n2-failure") && post {
        if has_id {
            kind = SbiRouteKind::N1N2TransferFailure;
            target = Some(3);
        } else {
            kind = SbiRouteKind::MissingSmContextRef;
        }
    } else if range_is(q, s0, "nsmf-callback") && range_is(q, s2, "amf-status") && post {
        if has_id {
            kind = SbiRouteKind::AmfStatusChange;
            target = Some(3);
        } else {
            kind = SbiRouteKind::MissingSmContextRef;
        }
    } else {
        kind = SbiRouteKind::UnknownEndpoint;
    }
    assert(kind == spec_route.0);
    assert(target == match spec_route.1 {
        Some(i) => Some(i as usize),
        None => None::<usize>,
    });
    let text = match target {
        Some(i) => {
            let (a, b) = rs[i];
            Some(lossy_string(&q[a..b]))
        },
        None => None,
    };
    SbiRoute { kind, target: text }
}

/// What the checks of an SM Context Create request read of its JSON body
/// (SmContextCreateData, TS 29.502 6.1.6.2.2).
#[derive(Debug, Clone, Copy)]
pub struct SmContextCreateFields {
    /// `pduSessionId`, when it is an unsigned integer
    pub pdu_session_id: Option<u64>,
    /// `dnn` is a string
    pub has_dnn: bool,
    /// `sNssai.sst`, when it is an unsigned integer
    pub sst: Option<u64>,
    /// `n1SmMsg.contentId` is a string (a reference to a binary part)
    pub n1_sm_msg_ref: bool,
    /// `n1SmMsg` is itself a string (base64 in the JSON)
    pub n1_sm_msg_inline: bool,
}

/// The ProblemDetails cause of the first mandatory IE an SM Context Create
/// request gets wrong, if any: a PDU session ID outside 1..=15, then a
/// missing DNN, then a missing SST, then a missing N1 SM message. `supi`
/// and `anType` are not required.
pub open spec fn create_data_problem(f: SmContextCreateFields) -> Option<&'static str> {
    if !(f.pdu_session_id matches Some(p) && 1 <= p <= 15) {
        Some("MANDATORY_IE_INCORRECT")
    } else if !f.has_dnn {
        Some("MANDATORY_IE_MISSING")
    } else if f.sst is None {
        Some("MANDATORY_IE_MISSING")
    } else if !f.n1_sm_msg_ref && !f.n1_sm_msg_inline {
        Some("N1_SM_ERROR")
    } else {
        None
    }
}

/// Checks the mandatory IEs of an SM Context Create request (see
/// `create_data_problem`).
pub fn validate_sm_context_create_data(f: &SmContextCreateFields) -> (r: Option<&'static str>)
    ensures
        r == create_data_problem(*f),
{
    let psi_ok = match f.pdu_session_id {
        Some(p) => 1 <= p && p <= 15,
        None => false,
    };
    if !psi_ok {
        return Some("MANDATORY_IE_INCORRECT");
    }
    if !f.has_dnn {
        return Some("MANDATORY_IE_MISSING");
    }
    if f.sst.is_none() {
        return Some("MANDATORY_IE_MISSING");
    }
    if !f.n1_sm_msg_ref && !f.n1_sm_msg_inline {
        return Some("N1_SM_ERROR");
    }
    None
}

/// PDU session type IPv4 (TS 24.501 9.11.4.11).
pub const PDU_SESSION_TYPE_IPV4: u8 = 1;

/// PDU session type IPv4v6 (TS 24.501 9.11.4.11).
pub const PDU_SESSION_TYPE_IPV4V6: u8 = 3;

/// 5GSM cause #50, "PDU session type IPv4 only allowed".
pub const GSM_CAUSE_PDU_SESSION_TYPE_IPV4_ONLY_ALLOWED: u8 = 50;

/// The PDU session type and SSC mode an SMF selects for a session.
#[derive(Debug, Clone, Copy, PartialEq, Eq)]
pub struct SessionSelection {
    pub pdu_session_type: u8,
    pub ssc_mode: u8,
}

/// Why an SM Context Create is refused: the HTTP status, the ProblemDetails
/// cause and the 5GSM cause of the N1 PDU Session Establishment Reject.
#[derive(Debug, Clone, Copy, PartialEq, Eq)]
pub struct CreateRejection {
    pub status: u16,
    pub cause: &'static str,
    pub gsm_cause: u8,
}

/// The session an SMF that serves IPv4 selects for the PDU session type and
/// SSC mode a UE requests: IPv4 for a request of IPv4 or IPv4v6 (IPv4 when
/// none is named), a refusal (403, cause #50) for any other type; the
/// requested SSC mode, or mode 1 when none or 0 is named.
pub open spec fn session_selection(requested_type: Option<u8>, requested_ssc: Option<u8>) -> Result<
    SessionSelection,
    CreateRejection,
> {
    let t = match requested_type {
        Some(t) => t,
        None => PDU_SESSION_TYPE_IPV4,
    };
    let ssc = match requested_ssc {
        Some(m) => m,
        None => 1u8,
    };
    if t == PDU_SESSION_TYPE_IPV4 || t == PDU_SESSION_TYPE_IPV4V6 {
        Ok(SessionSelection { pdu_session_type: PDU_SESSION_TYPE_IPV4, ssc_mode: if ssc == 0 { 1 } else { ssc } })
    } else {
        Err(CreateRejection {
            status: 403,
            cause: "PDU_SESSION_TYPE_NOT_SUPPORTED",
            gsm_cause: GSM_CAUSE_PDU_SESSION_TYPE_IPV4_ONLY_ALLOWED,
        })
    }
}

/// Selects the PDU session type and SSC mode from what the N1 PDU Session
/// Establishment Request asks for (see `session_selection`).
pub fn select_pdu_session(requested_type: Option<u8>, requested_ssc: Option<u8>) -> (r: Result<
    SessionSelection,
    CreateRejection,
>)
    ensures
        r == session_selection(requested_type, requested_ssc),
{
    let t = match requested_type {
        Some(t) => t,
        None => PDU_SESSION_TYPE_IPV4,
    };
    let ssc = match requested_ssc {
        Some(m) => m,
        None => 1u8,
    };
    if t == PDU_SESSION_TYPE_IPV4 || t == PDU_SESSION_TYPE_IPV4V6 {
        Ok(SessionSelection { pdu_session_type: PDU_SESSION_TYPE_IPV4, ssc_mode: if ssc == 0 { 1 } else { ssc } })
    } else {
        Err(CreateRejection {
            status: 403,
            cause: "PDU_SESSION_TYPE_NOT_SUPPORTED",
            gsm_cause: GSM_CAUSE_PDU_SESSION_TYPE_IPV4_ONLY_ALLOWED,
        })
    }
}

/// What an SM Context Update request asks for (TS 29.502 5.2.2.3), by its
/// `n2SmInfoType` and, without one, its `upCnxState`.
#[derive(Debug, Clone, Copy, PartialEq, Eq)]
pub enum SmContextUpdateAction {
    /// PDU_RES_SETUP_RSP or PATH_SWITCH_REQ: the gNB's downlink tunnel is
    /// to be read from the N2 transfer and the downlink FAR pointed at it
    ActivateDownlink { path_switch: bool },
    /// PDU_RES_SETUP_FAIL, PATH_SWITCH_SETUP_FAIL or HANDOVER_RES_ALLOC_FAIL:
    /// the access network failed, downlink goes back to buffering
    AnResourceFailure,
    /// PDU_RES_MOD_REQ: a UE-requested modification
    UeModification,
    /// PDU_RES_MOD_RSP, PDU_RES_REL_RSP or SECONDARY_RAT_USAGE: acknowledged
    Acknowledge,
    /// No N2 information and upCnxState DEACTIVATED: the UE went idle
    DeactivateUpConnection,
    /// No N2 information otherwise: the user plane is confirmed active
    ConfirmActivation,
    /// Any other N2 information type: refused (400 N2_SM_ERROR)
    Unsupported,
}

/// The action of an SM Context Update with N2 information type `t` (empty
/// when absent) and UP connection state `up` (empty when absent).
pub open spec fn update_action_of(t: Seq<u8>, up: Seq<u8>) -> SmContextUpdateAction {
    if is_text(t, "PDU_RES_SETUP_RSP") {
        SmContextUpdateAction::ActivateDownlink { path_switch: false }
    } else if is_text(t, "PATH_SWITCH_REQ") {
        SmContextUpdateAction::ActivateDownlink { path_switch: true }
    } else if is_text(t, "PDU_RES_SETUP_FAIL") || is_text(t, "PATH_SWITCH_SETUP_FAIL") || is_text(
        t,
        "HANDOVER_RES_ALLOC_FAIL",
    ) {
        SmContextUpdateAction::AnResourceFailure
    } else if is_text(t, "PDU_RES_MOD_REQ") {
        SmContextUpdateAction::UeModification
    } else if is_text(t, "PDU_RES_MOD_RSP") || is_text(t, "PDU_RES_REL_RSP") || is_text(t, "SECONDARY_RAT_USAGE") {
        SmContextUpdateAction::Acknowledge
    } else if t.len() == 0 {
        if is_text(up, "DEACTIVATED") {
            SmContextUpdateAction::DeactivateUpConnection
        } else {
            SmContextUpdateAction::ConfirmActivation
        }
    } else {
        SmContextUpdateAction::Unsupported
    }
}

/// Whether a text is the given one.
fn text_is(s: &str, t: &str) -> (e: bool)
    ensures
        e == is_text(s.spec_bytes(), t),
{
    let b = s.as_bytes();
    let e = range_is(b, (0, b.len()), t);
    assert(b@.subrange(0, b@.len() as int) =~= b@);
    e
}

/// Decides what an SM Context Update asks for (see `update_action_of`).
pub fn classify_sm_context_update(n2_sm_info_type: &str, up_cnx_state: &str) -> (a: SmContextUpdateAction)
    ensures
        a == update_action_of(n2_sm_info_type.spec_bytes(), up_cnx_state.spec_bytes()),
{
    let t = n2_sm_info_type;
    if text_is(t, "PDU_RES_SETUP_RSP") {
        SmContextUpdateAction::ActivateDownlink { path_switch: false }
    } else if text_is(t, "PATH_SWITCH_REQ") {
        SmContextUpdateAction::ActivateDownlink { path_switch: true }
    } else if text_is(t, "PDU_RES_SETUP_FAIL") || text_is(t, "PATH_SWITCH_SETUP_FAIL") || text_is(
        t,
        "HANDOVER_RES_ALLOC_FAIL",
    ) {
        SmContextUpdateAction::AnResourceFailure
    } else if text_is(t, "PDU_RES_MOD_REQ") {
        SmContextUpdateAction::UeModification
    } else if text_is(t, "PDU_RES_MOD_RSP") || text_is(t, "PDU_RES_REL_RSP") || text_is(t, "SECONDARY_RAT_USAGE") {
        SmContextUpdateAction::Acknowledge
    } else if t.as_bytes().len() == 0 {
        if text_is(up_cnx_state, "DEACTIVATED") {
            SmContextUpdateAction::DeactivateUpConnection
        } else {
            SmContextUpdateAction::ConfirmActivation
        }
    } else {
        SmContextUpdateAction::Unsupported
    }
}

} // verus!
