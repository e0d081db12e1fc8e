//! The N4 sessions the SMF opens on a UPF for a PDU session: the bodies of
//! the Session Establishment and Modification Requests it sends, and what
//! it reads back from the responses.

use vstd::prelude::*;
use crate::upf_rules::{ParsedCreateQer, create_qer_fields, create_qer_error, u40_at, rate_field, ParsedCreateBar, create_bar_fields, create_bar_error, ParsedCreateFar, create_far_fields, create_far_error, fp_value, fp_fields, fp_error, u8_field, opt_u8_field, u32_field, apply_action_field, text_matches};
use crate::smf_n4::{BarParams, create_bar_value, forwarding_parameters_value, opt_string_tlv, opt_ohc_tlv, string_bytes, ohc_value};
use crate::upf_parse::{ParsedOuterHeaderCreation, ohc_fields, ohc_error, ohc_gtpu_v4, ohc_gtpu_v6};
use crate::text::utf8_lossy;
use crate::upf_n4::opt_tlv;
use crate::pfcp::apply_action;
use crate::smf_n4::{opt_bitrate_tlv, opt_u8_tlv, bitrate_value, kbps40, div_ceil, gate_status_octet};
use crate::wire::{be16, be32, be64, tlv, u32_at, u64_at, read_u32, read_u64, concat_map, lemma_u32_roundtrip, lemma_u64_roundtrip};
use crate::upf_parse::{
    IeView, ParsedIe, ParsedFTeid, ParsedFSeid, ParsedUeIpAddr, ue_ip_fields, ue_ip_error, parse_ies, first_of, ie_views, lemma_parse_tlv, f_teid_fields, f_teid_error,
    f_seid_fields, f_seid_error, v4_view, v6_view,
};
use crate::upf_n4::{
    NodeId, FSeid, FTeid, CreatedPdr, node_id_value, created_pdr_value, created_pdr_ies, establishment_response_value,
    upf_f_teid_value,
};
use crate::ie::{f_seid_value, dns_labels};
use crate::pfcp::{pfcp_ie, pfcp_type};
use crate::smf_session::{
    SessionModificationParams, build_session_modification_request, modification_request_value, end_marker_requested,
    modification_pdr_ies, modification_far_ies, modification_qer_ies, modification_urr_ies, sndem_tlv, FarActivation,
    grouped_ies,
};
use crate::smf_n4::{update_far_activate_value, update_far_deactivate_value};
use crate::smf_n4::{
    PfcpMessageBuilder, PdrParams, FarParams, QerParams, UrrParams, node_id_ipv4_value, s_nssai_value,
    f_teid_value, ue_ip_value, urr_id_tlv, str_bytes, create_pdr_value, create_far_value, create_qer_value,
    create_urr_value, build_create_pdr, build_create_far, build_create_qer, build_create_urr, pdi_value,
    lemma_dns_labels_len,
};

verus! {

/// The XR delay-critical GBR flow of a session (5QI 82-85), which gets a
/// QER of its own.
#[derive(Debug, Clone, Copy)]
pub struct XrSessionFlow {
    pub five_qi: u8,
    pub gbr_ul_bps: u64,
    pub gbr_dl_bps: u64,
}

/// The QoS a PDU session's N4 session enforces: the QFI of its default
/// flow, the authorized Session-AMBR (bit/s) and the XR flow, if any.
#[derive(Debug, Clone, Copy)]
pub struct SessionQos {
    pub qfi: u8,
    pub ambr_ul_bps: u64,
    pub ambr_dl_bps: u64,
    pub xr_flow: Option<XrSessionFlow>,
}

/// The QER enforcing the Session-AMBR (QER 1): gates open, the AMBR as
/// MBR, the default flow's QFI.
pub open spec fn session_qer(qos: SessionQos) -> QerParams {
    QerParams {
        qer_id: 1,
        gate_status: (0, 0),
        mbr: Some((qos.ambr_ul_bps, qos.ambr_dl_bps)),
        gbr: None,
        qfi: Some(qos.qfi),
    }
}

/// The QFI an XR 5QI is carried as: its low six bits.
pub open spec fn xr_qfi(x: XrSessionFlow) -> u8 {
    x.five_qi & 0x3F
}

/// The QER of the XR flow (QER 2): gates open, the AMBR as MBR, the XR
/// flow's GBR, its QFI.
pub open spec fn xr_qer(qos: SessionQos, x: XrSessionFlow) -> QerParams {
    QerParams {
        qer_id: 2,
        gate_status: (0, 0),
        mbr: Some((qos.ambr_ul_bps, qos.ambr_dl_bps)),
        gbr: Some((x.gbr_ul_bps, x.gbr_dl_bps)),
        qfi: Some(xr_qfi(x)),
    }
}

/// The QER the session's PDRs bind to: the XR one when there is an XR
/// flow, else the Session-AMBR one.
pub open spec fn flow_qer_id(qos: SessionQos) -> u32 {
    if qos.xr_flow is Some {
        2
    } else {
        1
    }
}

/// The QFI the session's PDRs detect: the XR flow's, else the default.
pub open spec fn flow_qfi(qos: SessionQos) -> u8 {
    match qos.xr_flow {
        Some(x) => xr_qfi(x),
        None => qos.qfi,
    }
}

/// The URR ID a session's PDRs refer to, when it has a URR.
pub open spec fn urr_id_of(urr: Option<UrrParams>) -> Option<u32> {
    match urr {
        Some(u) => Some(u.urr_id),
        None => None,
    }
}

/// The Create PDR value of one of the session's two PDRs, both of
/// precedence 100. The uplink one (PDR 1) detects on Access, asks the UPF
/// to allocate the F-TEID (TEID 0), takes the UE address as source,
/// removes the GTP-U/UDP/IPv4 outer header and uses FAR 1; the downlink
/// one (PDR 2) detects on Core, takes the UE address as destination and
/// uses FAR 2. Both detect the flow's QFI and name the URR, when there is
/// one, and the flow's QER.
pub open spec fn flow_pdr_value(uplink: bool, ue_ip: [u8; 4], urr_id: Option<u32>, qer_id: u32, qfi: u8) -> Seq<u8> {
    tlv(pfcp_ie::PDR_ID, be16(if uplink { 1u16 } else { 2u16 })) + tlv(pfcp_ie::PRECEDENCE, be32(100)) + tlv(
        pfcp_ie::PDI,
        tlv(pfcp_ie::SOURCE_INTERFACE, seq![if uplink { 0u8 } else { 1u8 }]) + (if uplink {
            tlv(pfcp_ie::F_TEID, f_teid_value(0, None, None, None))
        } else {
            Seq::empty()
        }) + tlv(pfcp_ie::UE_IP_ADDRESS, ue_ip_value(Some(ue_ip), None, !uplink)) + tlv(pfcp_ie::QFI, seq![qfi]),
    ) + (if uplink {
        tlv(pfcp_ie::OUTER_HEADER_REMOVAL, seq![0u8])
    } else {
        Seq::empty()
    }) + tlv(pfcp_ie::FAR_ID, be32(if uplink { 1u32 } else { 2u32 })) + match urr_id {
        Some(u) => urr_id_tlv(u),
        None => Seq::empty(),
    } + tlv(pfcp_ie::QER_ID, be32(qer_id))
}

/// The uplink FAR (FAR 1): forward to the SGi-LAN/N6 interface (2).
pub open spec fn ul_far() -> FarParams {
    FarParams {
        far_id: 1,
        apply_action: 0x02,
        destination_interface: Some(2),
        outer_header_creation: None,
        network_instance: None,
    }
}

/// The downlink FAR (FAR 2): buffer toward Access until the gNB's tunnel
/// is known.
pub open spec fn dl_far() -> FarParams {
    FarParams {
        far_id: 2,
        apply_action: 0x04,
        destination_interface: Some(0),
        outer_header_creation: None,
        network_instance: None,
    }
}

/// The first part of the body of a Session Establishment Request for a
/// PDU session: the URR, when there is one; the SMF's Node ID and F-SEID;
/// the DNN; the S-NSSAI (no SD); the Session-AMBR QER, and the XR QER
/// when there is an XR flow.
pub open spec fn establishment_head(
    smf_n4_seid: u64,
    smf_ip: [u8; 4],
    dnn: Seq<u8>,
    sst: u8,
    qos: SessionQos,
    urr: Option<UrrParams>,
) -> Seq<u8> {
    (match urr {
        Some(u) => tlv(pfcp_ie::CREATE_URR, create_urr_value(u)),
        None => Seq::empty(),
    }) + tlv(pfcp_ie::NODE_ID, node_id_ipv4_value(smf_ip)) + tlv(
        pfcp_ie::F_SEID,
        f_seid_value(smf_n4_seid, Some(smf_ip), None),
    ) + tlv(pfcp_ie::APN_DNN, dns_labels(dnn)) + tlv(pfcp_ie::S_NSSAI, s_nssai_value(sst, None)) + tlv(
        pfcp_ie::CREATE_QER,
        create_qer_value(session_qer(qos)),
    ) + match qos.xr_flow {
        Some(x) => tlv(pfcp_ie::CREATE_QER, create_qer_value(xr_qer(qos, x))),
        None => Seq::empty(),
    }
}

/// A PDR of the session and its FAR (see `flow_pdr_value`, `ul_far`,
/// `dl_far`).
pub open spec fn flow_rules(uplink: bool, ue_ip: [u8; 4], urr_id: Option<u32>, qer_id: u32, qfi: u8) -> Seq<u8> {
    tlv(pfcp_ie::CREATE_PDR, flow_pdr_value(uplink, ue_ip, urr_id, qer_id, qfi)) + tlv(
        pfcp_ie::CREATE_FAR,
        create_far_value(if uplink { ul_far() } else { dl_far() }),
    )
}

/// The rules that end the body: the uplink PDR and FAR, then the
/// downlink PDR and FAR.
pub open spec fn establishment_rules(ue_ip: [u8; 4], qos: SessionQos, urr: Option<UrrParams>) -> Seq<u8> {
    flow_rules(true, ue_ip, urr_id_of(urr), flow_qer_id(qos), flow_qfi(qos)) + flow_rules(
        false,
        ue_ip,
        urr_id_of(urr),
        flow_qer_id(qos),
        flow_qfi(qos),
    )
}

/// The body of the Session Establishment Request for a PDU session.
pub open spec fn establishment_payload(
    smf_n4_seid: u64,
    smf_ip: [u8; 4],
    ue_ip: [u8; 4],
    dnn: Seq<u8>,
    sst: u8,
    qos: SessionQos,
    urr: Option<UrrParams>,
) -> Seq<u8> {
    establishment_head(smf_n4_seid, smf_ip, dnn, sst, qos, urr) + establishment_rules(ue_ip, qos, urr)
}

/// Makes one of the session's two PDRs (see `flow_pdr_value`).
fn flow_pdr(uplink: bool, ue_ip: [u8; 4], urr_id: Option<u32>, qer_id: u32, qfi: u8) -> (p: PdrParams)
    ensures
        create_pdr_value(p) == flow_pdr_value(uplink, ue_ip, urr_id, qer_id, qfi),
        create_pdr_value(p).len() <= 80,
{
    let mut urr_ids: Vec<u32> = Vec::new();
    if let Some(u) = urr_id {
        urr_ids.push(u);
    }
    let p = PdrParams {
        pdr_id: if uplink { 1 } else { 2 },
        precedence: 100,
        source_interface: if uplink { 0 } else { 1 },
        far_id: Some(if uplink { 1 } else { 2 }),
        urr_ids,
        qer_id: Some(qer_id),
        outer_header_removal: if uplink { Some(0) } else { None },
        f_teid: if uplink { Some((0, None, None)) } else { None },
        ue_ip_address: Some((Some(ue_ip), None, uplink)),
        sdf_filters: Vec::new(),
        qfi: Some(qfi),
        network_instance: None,
    };
    proof {
        reveal(pdi_value);
        let sdf = |x: String| crate::smf_n4::sdf_flow_tlv(x);
        assert(concat_map(p.sdf_filters@, sdf) =~= Seq::<u8>::empty());
        let g = |id: u32| urr_id_tlv(id);
        match urr_id {
            Some(u) => {
                assert(p.urr_ids@.drop_last() =~= Seq::<u32>::empty());
                assert(p.urr_ids@.last() == u);
                assert(concat_map(p.urr_ids@.drop_last(), g) =~= Seq::<u8>::empty());
                assert(concat_map(p.urr_ids@, g) =~= urr_id_tlv(u));
            },
            None => {
                assert(concat_map(p.urr_ids@, g) =~= Seq::<u8>::empty());
            },
        }
        assert(create_pdr_value(p) =~= flow_pdr_value(uplink, ue_ip, urr_id, qer_id, qfi));
    }
    p
}

/// Appends the first part of the body (see `establishment_head`).
#[verifier::rlimit(30)]
fn add_establishment_head(
    b: &mut PfcpMessageBuilder,
    smf_n4_seid: u64,
    smf_ip: [u8; 4],
    dnn: &str,
    sst: u8,
    qos: &SessionQos,
    urr: Option<UrrParams>,
)
    requires
        old(b)@.len() + establishment_head(smf_n4_seid, smf_ip, str_bytes(dnn), sst, *qos, urr).len() <= isize::MAX,
    ensures
        final(b)@ == old(b)@ + establishment_head(smf_n4_seid, smf_ip, str_bytes(dnn), sst, *qos, urr),
{
    let ghost start = b@;
    let ghost u0 = match urr {
        Some(u) => tlv(pfcp_ie::CREATE_URR, create_urr_value(u)),
        None => Seq::<u8>::empty(),
    };
    if let Some(u) = urr {
        let urr_bytes = build_create_urr(&u);
        b.add_tlv(pfcp_ie::CREATE_URR, urr_bytes.as_slice());
    }
    assert(b@ =~= start + u0);
    proof {
        lemma_dns_labels_len(str_bytes(dnn));
    }
    b.add_node_id_ipv4(smf_ip);
    b.add_f_seid(smf_n4_seid, Some(smf_ip), None);
    b.add_apn_dnn(dnn);
    b.add_s_nssai(sst, None);
    let session = QerParams {
        qer_id: 1,
        gate_status: (0, 0),
        mbr: Some((qos.ambr_ul_bps, qos.ambr_dl_bps)),
        gbr: None,
        qfi: Some(qos.qfi),
    };
    let qer_bytes = build_create_qer(&session);
    b.add_tlv(pfcp_ie::CREATE_QER, qer_bytes.as_slice());
    let ghost mid = b@;
    if let Some(x) = qos.xr_flow {
        let xr = QerParams {
            qer_id: 2,
            gate_status: (0, 0),
            mbr: Some((qos.ambr_ul_bps, qos.ambr_dl_bps)),
            gbr: Some((x.gbr_ul_bps, x.gbr_dl_bps)),
            qfi: Some(x.five_qi & 0x3F),
        };
        let xr_bytes = build_create_qer(&xr);
        b.add_tlv(pfcp_ie::CREATE_QER, xr_bytes.as_slice());
    } else {
        assert(b@ =~= mid + Seq::<u8>::empty());
    }
    assert(b@ =~= start + establishment_head(smf_n4_seid, smf_ip, str_bytes(dnn), sst, *qos, urr));
}

/// Appends a PDR of the session and its FAR (see `flow_rules`).
fn add_flow_rules(b: &mut PfcpMessageBuilder, uplink: bool, ue_ip: [u8; 4], urr_id: Option<u32>, qer_id: u32, qfi: u8)
    requires
        old(b)@.len() + flow_rules(uplink, ue_ip, urr_id, qer_id, qfi).len() <= isize::MAX,
    ensures
        final(b)@ == old(b)@ + flow_rules(uplink, ue_ip, urr_id, qer_id, qfi),
{
    let ghost start = b@;
    let pdr = flow_pdr(uplink, ue_ip, urr_id, qer_id, qfi);
    let pdr_bytes = build_create_pdr(&pdr);
    b.add_tlv(pfcp_ie::CREATE_PDR, pdr_bytes.as_slice());
    let far = if uplink {
        FarParams {
            far_id: 1,
            apply_action: 0x02,
            destination_interface: Some(2),
            outer_header_creation: None,
            network_instance: None,
        }
    } else {
        FarParams {
            far_id: 2,
            apply_action: 0x04,
            destination_interface: Some(0),
            outer_header_creation: None,
            network_instance: None,
        }
    };
    assert(far == (if uplink { ul_far() } else { dl_far() }));
    let far_bytes = build_create_far(&far);
    b.add_tlv(pfcp_ie::CREATE_FAR, far_bytes.as_slice());
    assert(b@ =~= start + flow_rules(uplink, ue_ip, urr_id, qer_id, qfi));
}

/// Appends the rules that end the body (see `establishment_rules`).
#[verifier::spinoff_prover]
#[verifier::rlimit(40)]
fn add_establishment_rules(b: &mut PfcpMessageBuilder, ue_ip: [u8; 4], qos: &SessionQos, urr: Option<UrrParams>)
    requires
        old(b)@.len() + establishment_rules(ue_ip, *qos, urr).len() <= isize::MAX,
    ensures
        final(b)@ == old(b)@ + establishment_rules(ue_ip, *qos, urr),
{
    let ghost start = b@;
    let urr_id = match urr {
        Some(u) => Some(u.urr_id),
        None => None,
    };
    let (flow_qer, flow_qfi_v) = match qos.xr_flow {
        Some(x) => (2u32, x.five_qi & 0x3F),
        None => (1u32, qos.qfi),
    };
    add_flow_rules(b, true, ue_ip, urr_id, flow_qer, flow_qfi_v);
    add_flow_rules(b, false, ue_ip, urr_id, flow_qer, flow_qfi_v);
    assert(b@ =~= start + establishment_rules(ue_ip, *qos, urr));
}

/// Builds the body of the Session Establishment Request for a PDU
/// session (see `establishment_payload`).
pub fn establishment_request_payload(
    smf_n4_seid: u64,
    smf_ip: [u8; 4],
    ue_ip: [u8; 4],
    dnn: &str,
    sst: u8,
    qos: &SessionQos,
    urr: Option<UrrParams>,
) -> (v: Vec<u8>)
    requires
        establishment_payload(smf_n4_seid, smf_ip, ue_ip, str_bytes(dnn), sst, *qos, urr).len() <= isize::MAX,
    ensures
        v@ == establishment_payload(smf_n4_seid, smf_ip, ue_ip, str_bytes(dnn), sst, *qos, urr),
{
    let mut b = PfcpMessageBuilder::new();
    add_establishment_head(&mut b, smf_n4_seid, smf_ip, dnn, sst, qos, urr);
    add_establishment_rules(&mut b, ue_ip, qos, urr);
    assert(b@ =~= establishment_payload(smf_n4_seid, smf_ip, ue_ip, str_bytes(dnn), sst, *qos, urr));
    b.build()
}


/// Why a PFCP session response does not give what was asked.
#[derive(Debug, Clone, Copy, PartialEq, Eq)]
pub enum N4ResponseError {
    /// A message of another type came back
    UnexpectedType(u8),
    /// The Cause is not "Request accepted" (1)
    Rejected(u8),
    /// No Cause IE
    MissingCause,
    /// An establishment response without the UP F-SEID
    MissingUpFSeid,
    /// An establishment response without a Created PDR carrying a
    /// non-zero F-TEID
    MissingCreatedFTeid,
}

/// What a Session Establishment Response gives: the UPF's SEID, the TEID
/// it allocated for uplink traffic, and its address.
#[derive(Debug, Clone, Copy)]
pub struct PfcpSessionResult {
    pub upf_seid: u64,
    pub upf_teid: u32,
    pub upf_addr: [u8; 4],
}

/// The Cause of a response body: the first octet of its first Cause IE.
pub open spec fn response_cause(body: Seq<u8>) -> Option<u8> {
    match first_of(parse_ies(body), pfcp_ie::CAUSE) {
        Some(v) if v.len() >= 1 => Some(v[0]),
        _ => None,
    }
}

/// What is wrong with a response, if anything: another message type than
/// the one expected, then a Cause other than "Request accepted", or none.
pub open spec fn response_problem(resp_type: u8, expected: u8, body: Seq<u8>) -> Option<N4ResponseError> {
    if resp_type != expected {
        Some(N4ResponseError::UnexpectedType(resp_type))
    } else {
        match response_cause(body) {
            Some(c) => if c == 1 {
                None
            } else {
                Some(N4ResponseError::Rejected(c))
            },
            None => Some(N4ResponseError::MissingCause),
        }
    }
}

/// Reads the Cause of a response body (see `response_cause`).
pub fn pfcp_cause(body: &[u8]) -> (r: Option<u8>)
    ensures
        r == response_cause(body@),
{
    let ies = ParsedIe::parse_all(body);
    match ParsedIe::find_ie(ies.as_slice(), pfcp_ie::CAUSE) {
        Some(ie) => if ie.value.len() >= 1 {
            Some(ie.value[0])
        } else {
            None
        },
        None => None,
    }
}

/// Checks a session response (see `response_problem`).
pub fn check_session_response(resp_type: u8, expected: u8, body: &[u8]) -> (r: Result<(), N4ResponseError>)
    ensures
        r is Ok <==> response_problem(resp_type, expected, body@) is None,
        r matches Err(e) ==> response_problem(resp_type, expected, body@) == Some(e),
{
    if resp_type != expected {
        return Err(N4ResponseError::UnexpectedType(resp_type));
    }
    match pfcp_cause(body) {
        Some(c) => if c == 1 {
            Ok(())
        } else {
            Err(N4ResponseError::Rejected(c))
        },
        None => Err(N4ResponseError::MissingCause),
    }
}

/// What the scan of an establishment response has found so far: the UP
/// SEID, the allocated TEID and the UPF's address.
pub open spec fn scan_start() -> (u64, u32, Seq<u8>) {
    (0, 0, seq![127u8, 0u8, 0u8, 1u8])
}

/// An IE inside a Created PDR: an F-TEID of five octets at least gives
/// its TEID when that is not 0, and its IPv4 address when the V4 flag
/// (0x01) is set and the address is there.
pub open spec fn created_pdr_step(st: (u64, u32, Seq<u8>), ie: IeView) -> (u64, u32, Seq<u8>) {
    let (t, v) = ie;
    if t == pfcp_ie::F_TEID && v.len() >= 5 {
        let teid = u32_at(v, 1);
        (
            st.0,
            if teid != 0 {
                teid
            } else {
                st.1
            },
            if v[0] & 0x01 != 0 && v.len() >= 9 {
                v.subrange(5, 9)
            } else {
                st.2
            },
        )
    } else {
        st
    }
}

/// The scan over the IEs of a Created PDR.
pub open spec fn created_pdr_scan(st: (u64, u32, Seq<u8>), ies: Seq<IeView>) -> (u64, u32, Seq<u8>)
    decreases ies.len(),
{
    if ies.len() == 0 {
        st
    } else {
        created_pdr_step(created_pdr_scan(st, ies.drop_last()), ies.last())
    }
}

/// An IE of an establishment response: an F-SEID of nine octets at least
/// gives the UP SEID, and the UPF's IPv4 address when the V4 flag (0x02)
/// is set and the address is there; a Created PDR is scanned for its
/// F-TEID.
pub open spec fn response_step(st: (u64, u32, Seq<u8>), ie: IeView) -> (u64, u32, Seq<u8>) {
    let (t, v) = ie;
    if t == pfcp_ie::F_SEID && v.len() >= 9 {
        (
            u64_at(v, 1),
            st.1,
            if v[0] & 0x02 != 0 && v.len() >= 13 {
                v.subrange(9, 13)
            } else {
                st.2
            },
        )
    } else if t == pfcp_ie::CREATED_PDR {
        created_pdr_scan(st, parse_ies(v))
    } else {
        st
    }
}

/// The scan over the IEs of an establishment response.
pub open spec fn response_scan(st: (u64, u32, Seq<u8>), ies: Seq<IeView>) -> (u64, u32, Seq<u8>)
    decreases ies.len(),
{
    if ies.len() == 0 {
        st
    } else {
        response_step(response_scan(st, ies.drop_last()), ies.last())
    }
}

/// What a Session Establishment Response gives: an error when it is not
/// one or is not accepted (see `response_problem`); else the scan of its
/// IEs, which must have found a UP SEID and then a TEID.
pub open spec fn establishment_outcome(resp_type: u8, body: Seq<u8>) -> Result<(u64, u32, Seq<u8>), N4ResponseError> {
    match response_problem(resp_type, pfcp_type::SESSION_ESTABLISHMENT_RESPONSE, body) {
        Some(e) => Err(e),
        None => {
            let st = response_scan(scan_start(), parse_ies(body));
            if st.0 == 0 {
                Err(N4ResponseError::MissingUpFSeid)
            } else if st.1 == 0 {
                Err(N4ResponseError::MissingCreatedFTeid)
            } else {
                Ok(st)
            }
        },
    }
}

/// Scans the IEs of a Created PDR value.
fn scan_created_pdr(value: &[u8], seid: u64, teid: u32, ip: [u8; 4]) -> (r: (u64, u32, [u8; 4]))
    ensures
        (r.0, r.1, r.2@) == created_pdr_scan((seid, teid, ip@), parse_ies(value@)),
{
    let ies = ParsedIe::parse_all(value);
    let ghost views = ie_views(ies@);
    let mut t = teid;
    let mut a = ip;
    let n = ies.len();
    let mut i: usize = 0;
    while i < n
        invariant
            n == ies@.len(),
            i <= n,
            views == ie_views(ies@),
            views == parse_ies(value@),
            (seid, t, a@) == created_pdr_scan((seid, teid, ip@), views.take(i as int)),
        decreases n - i,
    {
        let ie = &ies[i];
        proof {
            assert(views.take(i + 1).drop_last() =~= views.take(i as int));
            assert(views.take(i + 1).last() == (ie.ie_type, ie.value@));
        }
        if ie.ie_type == pfcp_ie::F_TEID && ie.value.len() >= 5 {
            let v = ie.value.as_slice();
            let x = read_u32(v, 1);
            if x != 0 {
                t = x;
            }
            if v[0] & 0x01 != 0 && v.len() >= 9 {
                let na = [v[5], v[6], v[7], v[8]];
                assert(na@ =~= v@.subrange(5, 9));
                a = na;
            }
        }
        i = i + 1;
    }
    assert(views.take(n as int) =~= views);
    (seid, t, a)
}

/// Reads what a Session Establishment Response gives (see
/// `establishment_outcome`).
pub fn establishment_result(resp_type: u8, body: &[u8]) -> (r: Result<PfcpSessionResult, N4ResponseError>)
    ensures
        match establishment_outcome(resp_type, body@) {
            Ok(st) => r matches Ok(x) && x.upf_seid == st.0 && x.upf_teid == st.1 && x.upf_addr@ == st.2,
            Err(e) => r == Err::<PfcpSessionResult, N4ResponseError>(e),
        },
{
    match check_session_response(resp_type, pfcp_type::SESSION_ESTABLISHMENT_RESPONSE, body) {
        Err(e) => {
            return Err(e);
        },
        Ok(()) => {},
    }
    let ies = ParsedIe::parse_all(body);
    let ghost views = ie_views(ies@);
    let mut seid: u64 = 0;
    let mut teid: u32 = 0;
    let mut ip: [u8; 4] = [127, 0, 0, 1];
    assert(ip@ =~= seq![127u8, 0u8, 0u8, 1u8]);
    let n = ies.len();
    let mut i: usize = 0;
    assert(views.take(0) =~= Seq::<IeView>::empty());
    while i < n
        invariant
            n == ies@.len(),
            i <= n,
            views == ie_views(ies@),
            (seid, teid, ip@) == response_scan(scan_start(), views.take(i as int)),
        decreases n - i,
    {
        let ie = &ies[i];
        proof {
            assert(views.take(i + 1).drop_last() =~= views.take(i as int));
            assert(views.take(i + 1).last() == (ie.ie_type, ie.value@));
        }
        let v = ie.value.as_slice();
        if ie.ie_type == pfcp_ie::F_SEID && v.len() >= 9 {
            seid = read_u64(v, 1);
            if v[0] & 0x02 != 0 && v.len() >= 13 {
                let na = [v[9], v[10], v[11], v[12]];
                assert(na@ =~= v@.subrange(9, 13));
                ip = na;
            }
        } else if ie.ie_type == pfcp_ie::CREATED_PDR {
            let (s2, t2, a2) = scan_created_pdr(v, seid, teid, ip);
            seid = s2;
            teid = t2;
            ip = a2;
        }
        i = i + 1;
    }
    assert(views.take(n as int) =~= views);
    if seid == 0 {
        return Err(N4ResponseError::MissingUpFSeid);
    }
    if teid == 0 {
        return Err(N4ResponseError::MissingCreatedFTeid);
    }
    Ok(PfcpSessionResult { upf_seid: seid, upf_teid: teid, upf_addr: ip })
}



/// One grouped IE for a single item.
proof fn lemma_grouped_one<T>(ie_type: u16, s: Seq<T>, value: spec_fn(T) -> Seq<u8>)
    requires
        s.len() == 1,
    ensures
        grouped_ies(ie_type, s, value) == tlv(ie_type, value(s[0])),
{
    reveal_with_fuel(concat_map, 2);
    assert(s.drop_last().len() == 0);
    assert(grouped_ies(ie_type, s, value) =~= tlv(ie_type, value(s[0])));
}

/// Grouped IEs for at most one item.
proof fn lemma_grouped_at_most_one<T>(ie_type: u16, s: Seq<T>, value: spec_fn(T) -> Seq<u8>)
    requires
        s.len() <= 1,
    ensures
        grouped_ies(ie_type, s, value) == (if s.len() == 1 {
            tlv(ie_type, value(s[0]))
        } else {
            Seq::<u8>::empty()
        }),
{
    if s.len() == 1 {
        lemma_grouped_one(ie_type, s, value);
    }
}

/// A modification that only updates FARs and QERs, one of each at most:
/// its body is SNDEM when asked for, then those updates.
proof fn lemma_update_only(p: SessionModificationParams)
    requires
        p.create_pdrs@.len() == 0 && p.update_pdrs@.len() == 0 && p.remove_pdr_ids@.len() == 0,
        p.create_fars@.len() == 0 && p.update_fars_activate@.len() <= 1,
        p.update_fars_deactivate@.len() <= 1 && p.remove_far_ids@.len() == 0,
        p.create_qers@.len() == 0 && p.update_qers@.len() <= 1 && p.remove_qer_ids@.len() == 0,
        p.create_urrs@.len() == 0 && p.update_urrs@.len() == 0 && p.remove_urr_ids@.len() == 0,
    ensures
        modification_request_value(p) == sndem_tlv(p.update_fars_activate@) + (if p.update_fars_activate@.len() == 1 {
            let a = p.update_fars_activate@[0];
            tlv(pfcp_ie::UPDATE_FAR, update_far_activate_value(a.0, a.1, a.2))
        } else {
            Seq::<u8>::empty()
        }) + (if p.update_fars_deactivate@.len() == 1 {
            tlv(pfcp_ie::UPDATE_FAR, update_far_deactivate_value(p.update_fars_deactivate@[0]))
        } else {
            Seq::<u8>::empty()
        }) + (if p.update_qers@.len() == 1 {
            tlv(pfcp_ie::UPDATE_QER, create_qer_value(p.update_qers@[0]))
        } else {
            Seq::<u8>::empty()
        }),
{
    assert(modification_pdr_ies(p) =~= Seq::<u8>::empty());
    assert(modification_urr_ies(p) =~= Seq::<u8>::empty());
    lemma_grouped_at_most_one(
        pfcp_ie::UPDATE_FAR,
        p.update_fars_activate@,
        |a: FarActivation| update_far_activate_value(a.0, a.1, a.2),
    );
    lemma_grouped_at_most_one(pfcp_ie::UPDATE_FAR, p.update_fars_deactivate@, |id: u32| update_far_deactivate_value(id));
    lemma_grouped_at_most_one(pfcp_ie::UPDATE_QER, p.update_qers@, |x: QerParams| create_qer_value(x));
    assert(modification_request_value(p) =~= sndem_tlv(p.update_fars_activate@) + modification_far_ies(p)
        + modification_qer_ies(p));
}

/// No changes: a modification with every list empty.
fn no_changes() -> (p: SessionModificationParams)
    ensures
        p.create_pdrs@.len() == 0 && p.update_pdrs@.len() == 0 && p.remove_pdr_ids@.len() == 0,
        p.create_fars@.len() == 0 && p.update_fars_activate@.len() == 0,
        p.update_fars_deactivate@.len() == 0 && p.remove_far_ids@.len() == 0,
        p.create_qers@.len() == 0 && p.update_qers@.len() == 0 && p.remove_qer_ids@.len() == 0,
        p.create_urrs@.len() == 0 && p.update_urrs@.len() == 0 && p.remove_urr_ids@.len() == 0,
{
    SessionModificationParams {
        create_pdrs: Vec::new(),
        update_pdrs: Vec::new(),
        remove_pdr_ids: Vec::new(),
        create_fars: Vec::new(),
        update_fars_activate: Vec::new(),
        update_fars_deactivate: Vec::new(),
        remove_far_ids: Vec::new(),
        create_qers: Vec::new(),
        update_qers: Vec::new(),
        remove_qer_ids: Vec::new(),
        create_urrs: Vec::new(),
        update_urrs: Vec::new(),
        remove_urr_ids: Vec::new(),
    }
}

/// The Outer Header Creation toward a gNB: GTP-U/UDP/IPv4 (0x0100) with
/// its TEID and address.
pub open spec fn gnb_tunnel(gnb_teid: u32, gnb_addr: [u8; 4]) -> Option<(u16, u32, Option<[u8; 4]>, Option<[u8; 16]>)> {
    Some((0x0100u16, gnb_teid, Some(gnb_addr), None::<[u8; 16]>))
}

/// The body of the Session Modification Request that points the downlink
/// at the gNB once it has answered: PFCPSMReq-Flags with SNDEM (End Marker
/// packets on the old tunnel), then an Update FAR that makes FAR 2 forward
/// to Access through the gNB's tunnel.
pub open spec fn dl_activation_payload(gnb_teid: u32, gnb_addr: [u8; 4]) -> Seq<u8> {
    tlv(pfcp_ie::PFCPSMREQ_FLAGS, seq![0x02u8]) + tlv(
        pfcp_ie::UPDATE_FAR,
        update_far_activate_value(2, 0, gnb_tunnel(gnb_teid, gnb_addr)),
    )
}

/// Builds the body of the modification that activates the downlink (see
/// `dl_activation_payload`).
pub fn dl_far_activation_payload(gnb_teid: u32, gnb_addr: [u8; 4]) -> (v: Vec<u8>)
    ensures
        v@ == dl_activation_payload(gnb_teid, gnb_addr),
{
    let mut params = no_changes();
    params.update_fars_activate.push((2, 0, Some((0x0100, gnb_teid, Some(gnb_addr), None)), true));
    proof {
        let acts = params.update_fars_activate@;
        assert(acts[0].3);
        assert(end_marker_requested(acts));
        lemma_update_only(params);
        assert(modification_request_value(params) =~= dl_activation_payload(gnb_teid, gnb_addr));
    }
    build_session_modification_request(&params)
}

/// The body of the Session Modification Request that applies a new
/// Session-AMBR: an Update QER for QER 1 with gates open, the AMBR as MBR
/// and the QFI.
pub open spec fn qer_update_payload(qfi: u8, ambr_ul: u64, ambr_dl: u64) -> Seq<u8> {
    tlv(
        pfcp_ie::UPDATE_QER,
        create_qer_value(QerParams { qer_id: 1, gate_status: (0, 0), mbr: Some((ambr_ul, ambr_dl)), gbr: None, qfi: Some(qfi) }),
    )
}

/// Builds the body of the modification that applies a new Session-AMBR
/// (see `qer_update_payload`).
pub fn session_qer_update_payload(qfi: u8, ambr_ul: u64, ambr_dl: u64) -> (v: Vec<u8>)
    ensures
        v@ == qer_update_payload(qfi, ambr_ul, ambr_dl),
{
    let mut params = no_changes();
    params.update_qers.push(QerParams { qer_id: 1, gate_status: (0, 0), mbr: Some((ambr_ul, ambr_dl)), gbr: None, qfi: Some(qfi) });
    proof {
        assert(!end_marker_requested(params.update_fars_activate@));
        lemma_update_only(params);
        assert(modification_request_value(params) =~= qer_update_payload(qfi, ambr_ul, ambr_dl));
    }
    build_session_modification_request(&params)
}

/// The body of the Session Modification Request that puts the downlink
/// back to buffering: an Update FAR for FAR 2.
pub open spec fn dl_deactivation_payload() -> Seq<u8> {
    tlv(pfcp_ie::UPDATE_FAR, update_far_deactivate_value(2))
}

/// Builds the body of the modification that deactivates the downlink (see
/// `dl_deactivation_payload`).
pub fn dl_far_deactivation_payload() -> (v: Vec<u8>)
    ensures
        v@ == dl_deactivation_payload(),
{
    let mut params = no_changes();
    params.update_fars_deactivate.push(2);
    proof {
        assert(!end_marker_requested(params.update_fars_activate@));
        lemma_update_only(params);
        assert(modification_request_value(params) =~= dl_deactivation_payload());
    }
    build_session_modification_request(&params)
}

/// The F-TEID of a Created PDR that the UPF writes, with a TEID and an
/// IPv4 address and without CHOOSE, is what the scan of the PDR finds.
proof fn lemma_created_pdr_reads_back(st: (u64, u32, Seq<u8>), pdr: CreatedPdr, t: FTeid)
    requires
        pdr.local_f_teid == Some(t),
        !t.choose,
        t.choose_id is None,
        t.ipv4 is Some,
        t.teid != 0,
    ensures
        created_pdr_scan(st, parse_ies(created_pdr_value(pdr))) == (st.0, t.teid, t.ipv4.unwrap()@),
{
    let fv = upf_f_teid_value(t);
    let a = t.ipv4.unwrap();
    let flags = fv[0];
    assert(fv =~= seq![flags] + be32(t.teid) + a@ + crate::ie::opt_v6(t.ipv6));
    if t.ipv6 is Some {
        assert(flags == 3);
        assert(3u8 & 0x01u8 != 0) by (bit_vector);
    } else {
        assert(flags == 1);
        assert(1u8 & 0x01u8 != 0) by (bit_vector);
    }
    lemma_u32_roundtrip(t.teid);
    assert(u32_at(fv, 1) == t.teid);
    assert(fv.subrange(5, 9) =~= a@);
    let id_ie = tlv(pfcp_ie::PDR_ID, be16(pdr.pdr_id));
    let ue = match pdr.ue_ip_address {
        Some(u) => tlv(pfcp_ie::UE_IP_ADDRESS, crate::upf_n4::upf_ue_ip_value(u, false)),
        None => Seq::<u8>::empty(),
    };
    let cpv = created_pdr_value(pdr);
    assert(cpv =~= id_ie + (tlv(pfcp_ie::F_TEID, fv) + ue));
    lemma_parse_tlv(pfcp_ie::PDR_ID, be16(pdr.pdr_id), tlv(pfcp_ie::F_TEID, fv) + ue);
    lemma_parse_tlv(pfcp_ie::F_TEID, fv, ue);
    let step2 = created_pdr_step(created_pdr_step(st, (pfcp_ie::PDR_ID, be16(pdr.pdr_id))), (pfcp_ie::F_TEID, fv));
    assert(step2 == (st.0, t.teid, a@));
    match pdr.ue_ip_address {
        Some(u) => {
            let uv = crate::upf_n4::upf_ue_ip_value(u, false);
            assert(ue =~= tlv(pfcp_ie::UE_IP_ADDRESS, uv) + Seq::<u8>::empty());
            lemma_parse_tlv(pfcp_ie::UE_IP_ADDRESS, uv, Seq::<u8>::empty());
            let ies = seq![(pfcp_ie::PDR_ID, be16(pdr.pdr_id)), (pfcp_ie::F_TEID, fv), (pfcp_ie::UE_IP_ADDRESS, uv)];
            assert(parse_ies(cpv) =~= ies);
            reveal_with_fuel(created_pdr_scan, 4);
            assert(ies.drop_last().drop_last().drop_last() =~= Seq::<IeView>::empty());
            assert(ies.drop_last().drop_last() =~= seq![(pfcp_ie::PDR_ID, be16(pdr.pdr_id))]);
            assert(ies.drop_last() =~= seq![(pfcp_ie::PDR_ID, be16(pdr.pdr_id)), (pfcp_ie::F_TEID, fv)]);
        },
        None => {
            let ies = seq![(pfcp_ie::PDR_ID, be16(pdr.pdr_id)), (pfcp_ie::F_TEID, fv)];
            assert(parse_ies(cpv) =~= ies);
            reveal_with_fuel(created_pdr_scan, 3);
            assert(ies.drop_last().drop_last() =~= Seq::<IeView>::empty());
            assert(ies.drop_last() =~= seq![(pfcp_ie::PDR_ID, be16(pdr.pdr_id))]);
        },
    }
}

/// What the SMF reads from the Session Establishment Response the UPF
/// builds: for an F-SEID with an IPv4 address and a non-zero SEID, and one
/// Created PDR whose F-TEID has a non-zero TEID and an IPv4 address (no
/// CHOOSE), the outcome is that SEID, that TEID and the F-TEID's address.
#[verifier::spinoff_prover]
#[verifier::rlimit(40)]
pub proof fn lemma_upf_establishment_response_reads_back(node_id: NodeId, f_seid: FSeid, pdr: CreatedPdr, t: FTeid)
    requires
        node_id_value(node_id).len() <= 0xFFFF,
        created_pdr_value(pdr).len() <= 0xFFFF,
        f_seid.seid != 0,
        f_seid.ipv4 is Some,
        pdr.local_f_teid == Some(t),
        !t.choose,
        t.choose_id is None,
        t.ipv4 is Some,
        t.teid != 0,
    ensures
        establishment_outcome(
            pfcp_type::SESSION_ESTABLISHMENT_RESPONSE,
            establishment_response_value(node_id, f_seid, seq![pdr]),
        ) == Ok::<(u64, u32, Seq<u8>), N4ResponseError>((f_seid.seid, t.teid, t.ipv4.unwrap()@)),
{
    let nv = node_id_value(node_id);
    let fs = f_seid_value(f_seid.seid, f_seid.ipv4, f_seid.ipv6);
    let sa = f_seid.ipv4.unwrap();
    let cpv = created_pdr_value(pdr);
    let a = tlv(pfcp_ie::NODE_ID, nv);
    let b = tlv(pfcp_ie::CAUSE, seq![1u8]);
    let c = tlv(pfcp_ie::F_SEID, fs);
    let d = tlv(pfcp_ie::CREATED_PDR, cpv);
    reveal_with_fuel(concat_map, 2);
    assert(seq![pdr].drop_last() =~= Seq::<CreatedPdr>::empty());
    assert(created_pdr_ies(seq![pdr]) =~= d);
    let body = establishment_response_value(node_id, f_seid, seq![pdr]);
    assert(body =~= a + (b + (c + (d + Seq::<u8>::empty()))));
    lemma_parse_tlv(pfcp_ie::NODE_ID, nv, b + (c + (d + Seq::<u8>::empty())));
    lemma_parse_tlv(pfcp_ie::CAUSE, seq![1u8], c + (d + Seq::<u8>::empty()));
    lemma_parse_tlv(pfcp_ie::F_SEID, fs, d + Seq::<u8>::empty());
    lemma_parse_tlv(pfcp_ie::CREATED_PDR, cpv, Seq::<u8>::empty());
    let ies = seq![(pfcp_ie::NODE_ID, nv), (pfcp_ie::CAUSE, seq![1u8]), (pfcp_ie::F_SEID, fs), (pfcp_ie::CREATED_PDR, cpv)];
    assert(parse_ies(body) =~= ies);
    reveal_with_fuel(first_of, 3);
    assert(ies.drop_first() =~= seq![(pfcp_ie::CAUSE, seq![1u8]), (pfcp_ie::F_SEID, fs), (pfcp_ie::CREATED_PDR, cpv)]);
    assert(response_cause(body) == Some(1u8));
    // The F-SEID gives the SEID and the UPF's address.
    let flags = fs[0];
    assert(fs =~= seq![flags] + be64(f_seid.seid) + sa@ + crate::ie::opt_v6(f_seid.ipv6));
    if f_seid.ipv6 is Some {
        assert(flags == 3);
        assert(3u8 & 0x02u8 != 0) by (bit_vector);
    } else {
        assert(flags == 2);
        assert(2u8 & 0x02u8 != 0) by (bit_vector);
    }
    lemma_u64_roundtrip(f_seid.seid);
    assert(fs.subrange(1, 9) =~= be64(f_seid.seid));
    assert(u64_at(fs, 1) == u64_at(be64(f_seid.seid), 0));
    assert(fs.subrange(9, 13) =~= sa@);
    let st2 = response_step(response_step(scan_start(), (pfcp_ie::NODE_ID, nv)), (pfcp_ie::CAUSE, seq![1u8]));
    assert(st2 == scan_start());
    let st3 = response_step(st2, (pfcp_ie::F_SEID, fs));
    assert(st3 == (f_seid.seid, 0u32, sa@));
    lemma_created_pdr_reads_back(st3, pdr, t);
    reveal_with_fuel(response_scan, 5);
    assert(ies.drop_last().drop_last().drop_last().drop_last() =~= Seq::<IeView>::empty());
    assert(ies.drop_last().drop_last().drop_last() =~= seq![(pfcp_ie::NODE_ID, nv)]);
    assert(ies.drop_last().drop_last() =~= seq![(pfcp_ie::NODE_ID, nv), (pfcp_ie::CAUSE, seq![1u8])]);
    assert(ies.drop_last() =~= seq![(pfcp_ie::NODE_ID, nv), (pfcp_ie::CAUSE, seq![1u8]), (pfcp_ie::F_SEID, fs)]);
}

/// The bits of a flags octet below 4.
proof fn lemma_low_flag_bits(f: u8)
    by (bit_vector)
    requires
        f < 4,
    ensures
        f & 0x04 == 0,
        f & 0x08 == 0,
        (f & 0x01 != 0) == (f == 1 || f == 3),
        (f & 0x02 != 0) == (f == 2 || f == 3),
{
}

/// The F-TEID the SMF writes in a PDI, without a CHOOSE ID, reads back at
/// the UPF: it parses, without CHOOSE, with its TEID and its addresses.
pub proof fn lemma_smf_f_teid_reads_back(teid: u32, ipv4: Option<[u8; 4]>, ipv6: Option<[u8; 16]>, p: ParsedFTeid)
    requires
        f_teid_fields(p, f_teid_value(teid, ipv4, ipv6, None)),
    ensures
        f_teid_error(f_teid_value(teid, ipv4, ipv6, None)) is None,
        !p.ch,
        p.teid == teid,
        v4_view(p.ipv4) == v4_view(ipv4),
        v6_view(p.ipv6) == v6_view(ipv6),
        p.choose_id is None,
{
    let d = f_teid_value(teid, ipv4, ipv6, None);
    let f = d[0];
    lemma_low_flag_bits(f);
    lemma_u32_roundtrip(teid);
    assert(d =~= seq![f] + be32(teid) + crate::ie::opt_v4(ipv4) + crate::ie::opt_v6(ipv6));
    assert(u32_at(d, 1) == teid);
    if let Some(a) = ipv4 {
        assert(d.subrange(5, 9) =~= a@);
    }
    if let Some(a) = ipv6 {
        let at: int = if ipv4 is Some { 9 } else { 5 };
        assert(d.subrange(at, at + 16) =~= a@);
    }
}

/// The F-SEID the SMF writes in a Session Establishment Request reads
/// back at the UPF: it parses, with its SEID and its addresses.
pub proof fn lemma_smf_f_seid_reads_back(seid: u64, ipv4: Option<[u8; 4]>, ipv6: Option<[u8; 16]>, p: ParsedFSeid)
    requires
        f_seid_fields(p, f_seid_value(seid, ipv4, ipv6)),
    ensures
        f_seid_error(f_seid_value(seid, ipv4, ipv6)) is None,
        p.seid == seid,
        v4_view(p.ipv4) == v4_view(ipv4),
        v6_view(p.ipv6) == v6_view(ipv6),
{
    let d = f_seid_value(seid, ipv4, ipv6);
    let f = d[0];
    lemma_low_flag_bits(f);
    lemma_u64_roundtrip(seid);
    assert(d =~= seq![f] + be64(seid) + crate::ie::opt_v4(ipv4) + crate::ie::opt_v6(ipv6));
    assert(d.subrange(1, 9) =~= be64(seid));
    assert(u64_at(d, 1) == u64_at(be64(seid), 0));
    if let Some(a) = ipv4 {
        assert(d.subrange(9, 13) =~= a@);
    }
    if let Some(a) = ipv6 {
        let at: int = if ipv4 is Some { 13 } else { 9 };
        assert(d.subrange(at, at + 16) =~= a@);
    }
}

proof fn lemma_ue_ip_flag_bits(f: u8)
    by (bit_vector)
    requires
        f < 8,
    ensures
        f & 0x08 == 0,
        (f & 0x01 != 0) == (f == 1 || f == 3 || f == 5 || f == 7),
        (f & 0x02 != 0) == (f == 2 || f == 3 || f == 6 || f == 7),
        (f & 0x04 != 0) == (f >= 4),
{
}

/// The UE IP Address the SMF writes in a PDI reads back at the UPF: it
/// parses, with its addresses, as a destination address exactly when the
/// SMF wrote one (a downlink PDI), and with the default IPv6 prefix length.
pub proof fn lemma_smf_ue_ip_reads_back(
    ipv4: Option<[u8; 4]>,
    ipv6: Option<[u8; 16]>,
    destination: bool,
    p: ParsedUeIpAddr,
)
    requires
        ue_ip_fields(p, ue_ip_value(ipv4, ipv6, destination)),
    ensures
        ue_ip_error(ue_ip_value(ipv4, ipv6, destination)) is None,
        v4_view(p.ipv4) == v4_view(ipv4),
        v6_view(p.ipv6) == v6_view(ipv6),
        p.destination == destination,
        p.source == !destination,
        p.ipv6_prefix_len == (if ipv6 is Some { 64u8 } else { 0u8 }),
{
    let d = ue_ip_value(ipv4, ipv6, destination);
    let f = d[0];
    lemma_ue_ip_flag_bits(f);
    assert(d =~= seq![f] + crate::ie::opt_v4(ipv4) + crate::ie::opt_v6(ipv6));
    if let Some(a) = ipv4 {
        assert(d.subrange(1, 5) =~= a@);
    }
    if let Some(a) = ipv6 {
        let at: int = if ipv4 is Some { 5 } else { 1 };
        assert(d.subrange(at, at + 16) =~= a@);
    }
}

/// The IEs an optional value gives: none, or one of type `t`.
pub open spec fn opt_ie(t: u16, v: Option<Seq<u8>>) -> Seq<IeView> {
    match v {
        Some(x) => seq![(t, x)],
        None => Seq::empty(),
    }
}

/// The first IE of a type, over an IE put in front.
proof fn lemma_first_of_cons(x: IeView, rest: Seq<IeView>, t: u16)
    ensures
        first_of(seq![x] + rest, t) == (if x.0 == t { Some(x.1) } else { first_of(rest, t) }),
{
    assert((seq![x] + rest).drop_first() =~= rest);
}

/// The first IE of a type, over an optional IE put in front.
proof fn lemma_first_of_opt(t0: u16, v: Option<Seq<u8>>, rest: Seq<IeView>, t: u16)
    ensures
        first_of(opt_ie(t0, v) + rest, t) == (match v {
            Some(x) if t0 == t => Some(x),
            _ => first_of(rest, t),
        }),
{
    match v {
        Some(x) => lemma_first_of_cons((t0, x), rest, t),
        None => assert(opt_ie(t0, v) + rest =~= rest),
    }
}

/// A five-octet kbit/s field reads back as the rate rounded up to kbit/s.
proof fn lemma_kbps40_reads_back(bps: u64)
    requires
        div_ceil(bps, 1000) < 0x100_0000_0000,
    ensures
        kbps40(bps).len() == 5,
        u40_at(kbps40(bps), 0) == div_ceil(bps, 1000),
{
    let k = div_ceil(bps, 1000);
    let hi = (k / 0x1_0000_0000) as u32;
    let lo = (k % 0x1_0000_0000) as u32;
    lemma_u32_roundtrip(hi);
    lemma_u32_roundtrip(lo);
    let x = kbps40(bps);
    assert(x =~= seq![be32(hi)[3]] + be32(lo));
    assert(u32_at(x, 1) == lo);
    assert(be32(hi)[3] == hi);
}

/// An MBR or GBR value reads back as its two rates rounded up to kbit/s.
proof fn lemma_bitrate_reads_back(ul: u64, dl: u64)
    requires
        div_ceil(ul, 1000) < 0x100_0000_0000,
        div_ceil(dl, 1000) < 0x100_0000_0000,
    ensures
        bitrate_value(ul, dl).len() == 10,
        rate_field(Some(bitrate_value(ul, dl)), 0) == div_ceil(ul, 1000) * 1000,
        rate_field(Some(bitrate_value(ul, dl)), 5) == div_ceil(dl, 1000) * 1000,
{
    lemma_kbps40_reads_back(ul);
    lemma_kbps40_reads_back(dl);
    let x = kbps40(ul);
    let y = kbps40(dl);
    let v = bitrate_value(ul, dl);
    assert(v[0] == x[0] && v[1] == x[1] && v[2] == x[2] && v[3] == x[3] && v[4] == x[4]);
    assert(v[5] == y[0] && v[6] == y[1] && v[7] == y[2] && v[8] == y[3] && v[9] == y[4]);
    assert(u32_at(v, 1) == u32_at(x, 1));
    assert(u32_at(v, 6) == u32_at(y, 1));
}

/// Reading an optional MBR or GBR IE in front of other IEs.
proof fn lemma_parse_opt_rate(t: u16, r: Option<(u64, u64)>, rest: Seq<u8>)
    ensures
        parse_ies(opt_bitrate_tlv(t, r) + rest) == opt_ie(
            t,
            match r {
                Some((u, d)) => Some(bitrate_value(u, d)),
                None => None,
            },
        ) + parse_ies(rest),
{
    match r {
        Some((u, d)) => {
            assert(bitrate_value(u, d).len() == 10);
            lemma_parse_tlv(t, bitrate_value(u, d), rest);
        },
        None => {
            assert(opt_bitrate_tlv(t, r) + rest =~= rest);
            assert(opt_ie(t, None) + parse_ies(rest) =~= parse_ies(rest));
        },
    }
}

/// The QER rate the UPF reads for an optional rate pair the SMF wrote.
pub open spec fn read_rates(r: Option<(u64, u64)>) -> (int, int) {
    match r {
        Some((u, d)) => (div_ceil(u, 1000) * 1000, div_ceil(d, 1000) * 1000),
        None => (0, 0),
    }
}

/// Whether a rate pair fits the five-octet kbit/s fields of MBR and GBR.
pub open spec fn rates_fit(r: Option<(u64, u64)>) -> bool {
    match r {
        Some((u, d)) => div_ceil(u, 1000) < 0x100_0000_0000 && div_ceil(d, 1000) < 0x100_0000_0000,
        None => true,
    }
}

/// The value of an optional rate pair's MBR or GBR IE.
pub open spec fn opt_rates_value(r: Option<(u64, u64)>) -> Option<Seq<u8>> {
    match r {
        Some((u, d)) => Some(bitrate_value(u, d)),
        None => None,
    }
}

/// The value of an optional one-octet IE.
pub open spec fn opt_octet(x: Option<u8>) -> Option<Seq<u8>> {
    match x {
        Some(v) => Some(seq![v]),
        None => None,
    }
}

/// The IEs of the Create QER value the SMF writes, in order.
pub open spec fn qer_ies(q: QerParams) -> Seq<IeView> {
    seq![(pfcp_ie::QER_ID, be32(q.qer_id))] + (seq![
        (pfcp_ie::GATE_STATUS, seq![gate_status_octet(q.gate_status.0, q.gate_status.1)]),
    ] + (opt_ie(pfcp_ie::MBR, opt_rates_value(q.mbr)) + (opt_ie(pfcp_ie::GBR, opt_rates_value(q.gbr)) + opt_ie(
        pfcp_ie::QFI,
        opt_octet(q.qfi),
    ))))
}

/// Reading the Create QER value the SMF writes gives its IEs.
proof fn lemma_parse_qer(q: QerParams)
    ensures
        parse_ies(create_qer_value(q)) == qer_ies(q),
{
    let gate = gate_status_octet(q.gate_status.0, q.gate_status.1);
    let e = Seq::<u8>::empty();
    let a = tlv(pfcp_ie::QER_ID, be32(q.qer_id));
    let b = tlv(pfcp_ie::GATE_STATUS, seq![gate]);
    let m = opt_bitrate_tlv(pfcp_ie::MBR, q.mbr);
    let g = opt_bitrate_tlv(pfcp_ie::GBR, q.gbr);
    let f = opt_u8_tlv(pfcp_ie::QFI, q.qfi);
    assert(create_qer_value(q) =~= a + (b + (m + (g + (f + e)))));
    assert(parse_ies(e) =~= Seq::<IeView>::empty());
    match q.qfi {
        Some(x) => {
            lemma_parse_tlv(pfcp_ie::QFI, seq![x], e);
        },
        None => {
            assert(f + e =~= e);
        },
    }
    assert(parse_ies(f + e) =~= opt_ie(pfcp_ie::QFI, opt_octet(q.qfi)));
    lemma_parse_opt_rate(pfcp_ie::GBR, q.gbr, f + e);
    lemma_parse_opt_rate(pfcp_ie::MBR, q.mbr, g + (f + e));
    lemma_u32_roundtrip(q.qer_id);
    lemma_parse_tlv(pfcp_ie::GATE_STATUS, seq![gate], m + (g + (f + e)));
    lemma_parse_tlv(pfcp_ie::QER_ID, be32(q.qer_id), b + (m + (g + (f + e))));
}

/// What each lookup finds in the IEs of the Create QER value the SMF
/// writes.
proof fn lemma_qer_lookups(q: QerParams)
    ensures
        first_of(qer_ies(q), pfcp_ie::QER_ID) == Some(be32(q.qer_id)),
        first_of(qer_ies(q), pfcp_ie::GATE_STATUS) == Some(
            seq![gate_status_octet(q.gate_status.0, q.gate_status.1)],
        ),
        first_of(qer_ies(q), pfcp_ie::MBR) == opt_rates_value(q.mbr),
        first_of(qer_ies(q), pfcp_ie::GBR) == opt_rates_value(q.gbr),
        first_of(qer_ies(q), pfcp_ie::QFI) == opt_octet(q.qfi),
{
    lemma_one_lookup(q, pfcp_ie::QER_ID);
    lemma_one_lookup(q, pfcp_ie::GATE_STATUS);
    lemma_one_lookup(q, pfcp_ie::MBR);
    lemma_one_lookup(q, pfcp_ie::GBR);
    lemma_one_lookup(q, pfcp_ie::QFI);
}

/// One lookup in the IEs of a Create QER value, followed down the list.
proof fn lemma_one_lookup(q: QerParams, t: u16)
    ensures
        first_of(qer_ies(q), t) == (if t == pfcp_ie::QER_ID {
            Some(be32(q.qer_id))
        } else if t == pfcp_ie::GATE_STATUS {
            Some(seq![gate_status_octet(q.gate_status.0, q.gate_status.1)])
        } else if t == pfcp_ie::MBR && q.mbr is Some {
            opt_rates_value(q.mbr)
        } else if t == pfcp_ie::GBR && q.gbr is Some {
            opt_rates_value(q.gbr)
        } else if t == pfcp_ie::QFI && q.qfi is Some {
            opt_octet(q.qfi)
        } else {
            None
        }),
{
    let gate = gate_status_octet(q.gate_status.0, q.gate_status.1);
    let e = Seq::<IeView>::empty();
    let t4 = opt_ie(pfcp_ie::QFI, opt_octet(q.qfi));
    let t3 = opt_ie(pfcp_ie::GBR, opt_rates_value(q.gbr)) + t4;
    let tail = opt_ie(pfcp_ie::MBR, opt_rates_value(q.mbr)) + t3;
    let t2 = seq![(pfcp_ie::GATE_STATUS, seq![gate])] + tail;
    assert(t4 =~= t4 + e);
    assert(first_of(e, t) is None);
    lemma_first_of_opt(pfcp_ie::QFI, opt_octet(q.qfi), e, t);
    lemma_first_of_opt(pfcp_ie::GBR, opt_rates_value(q.gbr), t4, t);
    lemma_first_of_opt(pfcp_ie::MBR, opt_rates_value(q.mbr), t3, t);
    lemma_first_of_cons((pfcp_ie::GATE_STATUS, seq![gate]), tail, t);
    lemma_first_of_cons((pfcp_ie::QER_ID, be32(q.qer_id)), t2, t);
}

/// The Create QER the SMF writes reads back at the UPF: it parses, with
/// its QER ID, its gates (each taken modulo 4, as the two-bit fields hold
/// them), its MBR and GBR rounded up to whole kbit/s (0 where absent) and
/// its QFI (its low six bits), when the rates fit the five-octet kbit/s
/// fields.
pub proof fn lemma_smf_qer_reads_back(q: QerParams, p: ParsedCreateQer)
    requires
        rates_fit(q.mbr),
        rates_fit(q.gbr),
        create_qer_fields(p, create_qer_value(q)),
    ensures
        create_qer_error(create_qer_value(q)) is None,
        p.qer_id == q.qer_id,
        p.dl_gate == q.gate_status.0 % 4,
        p.ul_gate == q.gate_status.1 % 4,
        p.ul_mbr == read_rates(q.mbr).0,
        p.dl_mbr == read_rates(q.mbr).1,
        p.ul_gbr == read_rates(q.gbr).0,
        p.dl_gbr == read_rates(q.gbr).1,
        p.qfi == (match q.qfi {
            Some(f) => Some(f & 0x3F),
            None => None,
        }),
{
    lemma_parse_qer(q);
    lemma_qer_lookups(q);
    lemma_u32_roundtrip(q.qer_id);
    let gate = gate_status_octet(q.gate_status.0, q.gate_status.1);
    let d0 = q.gate_status.0;
    let u0 = q.gate_status.1;
    assert(gate & 0x03 == d0 % 4 && (gate >> 2u8) & 0x03 == u0 % 4) by (bit_vector)
        requires
            gate == ((d0 % 4 + (u0 % 4) * 4) as u8),
    ;
    match q.mbr {
        Some((u, d)) => lemma_bitrate_reads_back(u, d),
        None => {},
    }
    match q.gbr {
        Some((u, d)) => lemma_bitrate_reads_back(u, d),
        None => {},
    }
}

/// Reading an optional one-octet IE in front of other IEs.
proof fn lemma_parse_opt_octet(t: u16, x: Option<u8>, rest: Seq<u8>)
    ensures
        parse_ies(opt_u8_tlv(t, x) + rest) == opt_ie(t, opt_octet(x)) + parse_ies(rest),
{
    match x {
        Some(v) => lemma_parse_tlv(t, seq![v], rest),
        None => {
            assert(opt_u8_tlv(t, x) + rest =~= rest);
            assert(opt_ie(t, None) + parse_ies(rest) =~= parse_ies(rest));
        },
    }
}

/// The Create BAR the SMF writes reads back at the UPF: it parses, with
/// its BAR ID, its suggested buffering packet count and its downlink data
/// notification delay.
pub proof fn lemma_smf_bar_reads_back(b: BarParams, p: ParsedCreateBar)
    requires
        create_bar_fields(p, create_bar_value(b)),
    ensures
        create_bar_error(create_bar_value(b)) is None,
        p.bar_id == b.bar_id,
        p.suggested_buffering_packets_count == b.suggested_buffering_packets_count,
        p.ddn_delay == b.downlink_data_notification_delay,
{
    let e = Seq::<u8>::empty();
    let c = opt_u8_tlv(pfcp_ie::SUGGESTED_BUFFERING_PACKETS_COUNT, b.suggested_buffering_packets_count);
    let d = opt_u8_tlv(pfcp_ie::DOWNLINK_DATA_NOTIFICATION_DELAY, b.downlink_data_notification_delay);
    assert(create_bar_value(b) =~= tlv(pfcp_ie::BAR_ID, seq![b.bar_id]) + (d + (c + e)));
    assert(parse_ies(e) =~= Seq::<IeView>::empty());
    lemma_parse_opt_octet(pfcp_ie::SUGGESTED_BUFFERING_PACKETS_COUNT, b.suggested_buffering_packets_count, e);
    lemma_parse_opt_octet(pfcp_ie::DOWNLINK_DATA_NOTIFICATION_DELAY, b.downlink_data_notification_delay, c + e);
    lemma_parse_tlv(pfcp_ie::BAR_ID, seq![b.bar_id], d + (c + e));
    let tc = opt_ie(pfcp_ie::SUGGESTED_BUFFERING_PACKETS_COUNT, opt_octet(b.suggested_buffering_packets_count));
    let td = opt_ie(pfcp_ie::DOWNLINK_DATA_NOTIFICATION_DELAY, opt_octet(b.downlink_data_notification_delay));
    let ies = parse_ies(create_bar_value(b));
    assert(ies =~= seq![(pfcp_ie::BAR_ID, seq![b.bar_id])] + (td + (tc + Seq::<IeView>::empty())));
    let t2 = td + (tc + Seq::<IeView>::empty());
    let t3 = tc + Seq::<IeView>::empty();
    let z = Seq::<IeView>::empty();
    assert(first_of(z, pfcp_ie::BAR_ID) is None);
    assert(first_of(z, pfcp_ie::SUGGESTED_BUFFERING_PACKETS_COUNT) is None);
    assert(first_of(z, pfcp_ie::DOWNLINK_DATA_NOTIFICATION_DELAY) is None);
    lemma_first_of_opt(pfcp_ie::SUGGESTED_BUFFERING_PACKETS_COUNT, opt_octet(b.suggested_buffering_packets_count), z, pfcp_ie::BAR_ID);
    lemma_first_of_opt(pfcp_ie::SUGGESTED_BUFFERING_PACKETS_COUNT, opt_octet(b.suggested_buffering_packets_count), z, pfcp_ie::SUGGESTED_BUFFERING_PACKETS_COUNT);
    lemma_first_of_opt(pfcp_ie::SUGGESTED_BUFFERING_PACKETS_COUNT, opt_octet(b.suggested_buffering_packets_count), z, pfcp_ie::DOWNLINK_DATA_NOTIFICATION_DELAY);
    lemma_first_of_opt(pfcp_ie::DOWNLINK_DATA_NOTIFICATION_DELAY, opt_octet(b.downlink_data_notification_delay), t3, pfcp_ie::BAR_ID);
    lemma_first_of_opt(pfcp_ie::DOWNLINK_DATA_NOTIFICATION_DELAY, opt_octet(b.downlink_data_notification_delay), t3, pfcp_ie::SUGGESTED_BUFFERING_PACKETS_COUNT);
    lemma_first_of_opt(pfcp_ie::DOWNLINK_DATA_NOTIFICATION_DELAY, opt_octet(b.downlink_data_notification_delay), t3, pfcp_ie::DOWNLINK_DATA_NOTIFICATION_DELAY);
    lemma_first_of_cons((pfcp_ie::BAR_ID, seq![b.bar_id]), t2, pfcp_ie::BAR_ID);
    lemma_first_of_cons((pfcp_ie::BAR_ID, seq![b.bar_id]), t2, pfcp_ie::SUGGESTED_BUFFERING_PACKETS_COUNT);
    lemma_first_of_cons((pfcp_ie::BAR_ID, seq![b.bar_id]), t2, pfcp_ie::DOWNLINK_DATA_NOTIFICATION_DELAY);
}

/// The Outer Header Creation the SMF writes for GTP-U reads back at the
/// UPF: its description, TEID and addresses, and no port, when the
/// description's IPv4 and IPv6 flags say which addresses follow.
pub proof fn lemma_smf_ohc_reads_back(
    desc: u16,
    teid: u32,
    v4: Option<[u8; 4]>,
    v6: Option<[u8; 16]>,
    o: ParsedOuterHeaderCreation,
)
    requires
        ohc_gtpu_v4(desc) == (v4 is Some),
        ohc_gtpu_v6(desc) == (v6 is Some),
        v4 is Some || v6 is Some,
        ohc_fields(o, ohc_value(desc, teid, v4, v6)),
    ensures
        ohc_error(ohc_value(desc, teid, v4, v6)) is None,
        o.description == desc,
        o.teid == teid,
        v4_view(o.ipv4) == v4_view(v4),
        v6_view(o.ipv6) == v6_view(v6),
        o.port is None,
{
    let d = ohc_value(desc, teid, v4, v6);
    crate::wire::lemma_u16_roundtrip(desc);
    lemma_u32_roundtrip(teid);
    assert(d.subrange(0, 2) =~= be16(desc));
    assert(d[0] == be16(desc)[0] && d[1] == be16(desc)[1]);
    assert(d.subrange(2, 6) =~= be32(teid));
    assert(u32_at(d, 2) == teid);
    if let Some(a) = v4 {
        assert(d.subrange(6, 10) =~= a@);
    }
    if let Some(a) = v6 {
        let at: int = if v4 is Some { 10 } else { 6 };
        assert(d.subrange(at, at + 16) =~= a@);
    }
}

/// Reading an optional IE in front of other IEs.
proof fn lemma_parse_opt_value(t: u16, v: Option<Seq<u8>>, rest: Seq<u8>)
    requires
        v matches Some(x) ==> x.len() <= 0xFFFF,
    ensures
        parse_ies(opt_tlv(t, v) + rest) == opt_ie(t, v) + parse_ies(rest),
{
    match v {
        Some(x) => lemma_parse_tlv(t, x, rest),
        None => {
            assert(opt_tlv(t, v) + rest =~= rest);
            assert(opt_ie(t, None) + parse_ies(rest) =~= parse_ies(rest));
        },
    }
}

/// The value of an optional network instance.
pub open spec fn opt_text(s: Option<String>) -> Option<Seq<u8>> {
    match s {
        Some(x) => Some(string_bytes(x)),
        None => None,
    }
}

/// The value of an optional Outer Header Creation.
pub open spec fn opt_ohc(o: Option<(u16, u32, Option<[u8; 4]>, Option<[u8; 16]>)>) -> Option<Seq<u8>> {
    match o {
        Some((d, t, v4, v6)) => Some(ohc_value(d, t, v4, v6)),
        None => None,
    }
}

/// The IEs of the Forwarding Parameters the SMF writes.
proof fn lemma_parse_fp(f: FarParams)
    requires
        forwarding_parameters_value(f).len() <= 0xFFFF,
    ensures
        parse_ies(forwarding_parameters_value(f)) == opt_ie(
            pfcp_ie::DESTINATION_INTERFACE,
            opt_octet(f.destination_interface),
        ) + (opt_ie(pfcp_ie::NETWORK_INSTANCE, opt_text(f.network_instance)) + (opt_ie(
            pfcp_ie::OUTER_HEADER_CREATION,
            opt_ohc(f.outer_header_creation),
        ) + Seq::<IeView>::empty())),
{
    let e = Seq::<u8>::empty();
    let a = opt_u8_tlv(pfcp_ie::DESTINATION_INTERFACE, f.destination_interface);
    let b = opt_string_tlv(pfcp_ie::NETWORK_INSTANCE, f.network_instance);
    let c = opt_ohc_tlv(f.outer_header_creation);
    assert(b == opt_tlv(pfcp_ie::NETWORK_INSTANCE, opt_text(f.network_instance)));
    assert(c == opt_tlv(pfcp_ie::OUTER_HEADER_CREATION, opt_ohc(f.outer_header_creation)));
    assert(forwarding_parameters_value(f) =~= a + (b + (c + e)));
    assert(parse_ies(e) =~= Seq::<IeView>::empty());
    if let Some(x) = opt_ohc(f.outer_header_creation) {
        assert(x.len() <= forwarding_parameters_value(f).len());
    }
    if let Some(x) = opt_text(f.network_instance) {
        assert(x.len() <= forwarding_parameters_value(f).len());
    }
    lemma_parse_opt_value(pfcp_ie::OUTER_HEADER_CREATION, opt_ohc(f.outer_header_creation), e);
    lemma_parse_opt_value(pfcp_ie::NETWORK_INSTANCE, opt_text(f.network_instance), c + e);
    lemma_parse_opt_octet(pfcp_ie::DESTINATION_INTERFACE, f.destination_interface, b + (c + e));
}

/// What the lookups find in the IEs of the Forwarding Parameters.
proof fn lemma_fp_lookups(f: FarParams)
    ensures
        ({
            let ies = opt_ie(pfcp_ie::DESTINATION_INTERFACE, opt_octet(f.destination_interface)) + (opt_ie(
                pfcp_ie::NETWORK_INSTANCE,
                opt_text(f.network_instance),
            ) + (opt_ie(pfcp_ie::OUTER_HEADER_CREATION, opt_ohc(f.outer_header_creation)) + Seq::<IeView>::empty()));
            &&& first_of(ies, pfcp_ie::DESTINATION_INTERFACE) == opt_octet(f.destination_interface)
            &&& first_of(ies, pfcp_ie::NETWORK_INSTANCE) == opt_text(f.network_instance)
            &&& first_of(ies, pfcp_ie::OUTER_HEADER_CREATION) == opt_ohc(f.outer_header_creation)
        }),
{
    let z = Seq::<IeView>::empty();
    let t3 = opt_ie(pfcp_ie::OUTER_HEADER_CREATION, opt_ohc(f.outer_header_creation)) + z;
    let t2 = opt_ie(pfcp_ie::NETWORK_INSTANCE, opt_text(f.network_instance)) + t3;
    assert(first_of(z, pfcp_ie::DESTINATION_INTERFACE) is None);
    assert(first_of(z, pfcp_ie::NETWORK_INSTANCE) is None);
    assert(first_of(z, pfcp_ie::OUTER_HEADER_CREATION) is None);
    let ts: Seq<u16> = seq![pfcp_ie::DESTINATION_INTERFACE, pfcp_ie::NETWORK_INSTANCE, pfcp_ie::OUTER_HEADER_CREATION];
    assert forall|i: int| 0 <= i < 3 implies {
        let t = #[trigger] ts[i];
        &&& first_of(t3, t) == (if t == pfcp_ie::OUTER_HEADER_CREATION { opt_ohc(f.outer_header_creation) } else { None })
        &&& first_of(t2, t) == (if t == pfcp_ie::NETWORK_INSTANCE { opt_text(f.network_instance) } else { first_of(t3, t) })
    } by {
        let t = ts[i];
        lemma_first_of_opt(pfcp_ie::OUTER_HEADER_CREATION, opt_ohc(f.outer_header_creation), z, t);
        lemma_first_of_opt(pfcp_ie::NETWORK_INSTANCE, opt_text(f.network_instance), t3, t);
    }
    assert(ts[0] == pfcp_ie::DESTINATION_INTERFACE && ts[1] == pfcp_ie::NETWORK_INSTANCE && ts[2]
        == pfcp_ie::OUTER_HEADER_CREATION);
    lemma_first_of_opt(pfcp_ie::DESTINATION_INTERFACE, opt_octet(f.destination_interface), t2, pfcp_ie::DESTINATION_INTERFACE);
    lemma_first_of_opt(pfcp_ie::DESTINATION_INTERFACE, opt_octet(f.destination_interface), t2, pfcp_ie::NETWORK_INSTANCE);
    lemma_first_of_opt(pfcp_ie::DESTINATION_INTERFACE, opt_octet(f.destination_interface), t2, pfcp_ie::OUTER_HEADER_CREATION);
}

/// The Create FAR the SMF writes reads back at the UPF: it parses, with
/// its FAR ID, its Apply Action and no BAR; when it forwards, with its
/// Forwarding Parameters: the destination interface (0 when absent), the
/// network instance as text, and the outer header creation with its
/// description, TEID and addresses (for GTP-U, when the description's
/// flags say which addresses follow); when it does not forward, without
/// Forwarding Parameters.
#[verifier::spinoff_prover]
#[verifier::rlimit(40)]
pub proof fn lemma_smf_far_reads_back(f: FarParams, p: ParsedCreateFar)
    requires
        forwarding_parameters_value(f).len() <= 0xFFFF,
        f.outer_header_creation matches Some((d, t, v4, v6)) ==> ohc_gtpu_v4(d) == (v4 is Some) && ohc_gtpu_v6(d)
            == (v6 is Some) && (v4 is Some || v6 is Some),
        create_far_fields(p, create_far_value(f)),
    ensures
        create_far_error(create_far_value(f)) is None,
        p.far_id == f.far_id,
        p.apply_action == f.apply_action,
        p.bar_id is None,
        f.apply_action & apply_action::FORW == 0 ==> p.forwarding_parameters is None,
        f.apply_action & apply_action::FORW != 0 ==> (p.forwarding_parameters matches Some(fp) && {
            &&& fp.destination_interface == (match f.destination_interface {
                Some(x) => x,
                None => 0u8,
            })
            &&& text_matches(fp.network_instance, opt_text(f.network_instance))
            &&& match f.outer_header_creation {
                Some((d, t, v4, v6)) => fp.outer_header_creation matches Some(o) && o.description == d && o.teid == t
                    && v4_view(o.ipv4) == v4_view(v4) && v6_view(o.ipv6) == v6_view(v6) && o.port is None,
                None => fp.outer_header_creation is None,
            }
        }),
{
    let forw = f.apply_action & apply_action::FORW != 0;
    let e = Seq::<u8>::empty();
    let a = tlv(pfcp_ie::FAR_ID, be32(f.far_id));
    let b = tlv(pfcp_ie::APPLY_ACTION, be16(f.apply_action));
    let fpv = forwarding_parameters_value(f);
    let c = if forw { tlv(pfcp_ie::FORWARDING_PARAMETERS, fpv) } else { Seq::<u8>::empty() };
    let cv: Option<Seq<u8>> = if forw { Some(fpv) } else { None };
    assert(c == opt_tlv(pfcp_ie::FORWARDING_PARAMETERS, cv));
    assert(create_far_value(f) =~= a + (b + (c + e)));
    assert(parse_ies(e) =~= Seq::<IeView>::empty());
    lemma_parse_opt_value(pfcp_ie::FORWARDING_PARAMETERS, cv, e);
    crate::wire::lemma_u16_roundtrip(f.apply_action);
    lemma_u32_roundtrip(f.far_id);
    lemma_parse_tlv(pfcp_ie::APPLY_ACTION, be16(f.apply_action), c + e);
    lemma_parse_tlv(pfcp_ie::FAR_ID, be32(f.far_id), b + (c + e));
    let z = Seq::<IeView>::empty();
    let t3 = opt_ie(pfcp_ie::FORWARDING_PARAMETERS, cv) + z;
    let t2 = seq![(pfcp_ie::APPLY_ACTION, be16(f.apply_action))] + t3;
    let ies = parse_ies(create_far_value(f));
    assert(ies =~= seq![(pfcp_ie::FAR_ID, be32(f.far_id))] + t2);
    let ts: Seq<u16> = seq![
        pfcp_ie::FAR_ID,
        pfcp_ie::APPLY_ACTION,
        pfcp_ie::FORWARDING_PARAMETERS,
        pfcp_ie::UPDATE_FORWARDING_PARAMETERS,
        pfcp_ie::BAR_ID,
    ];
    assert forall|i: int| 0 <= i < 5 implies {
        let t = #[trigger] ts[i];
        first_of(ies, t) == (if t == pfcp_ie::FAR_ID {
            Some(be32(f.far_id))
        } else if t == pfcp_ie::APPLY_ACTION {
            Some(be16(f.apply_action))
        } else if t == pfcp_ie::FORWARDING_PARAMETERS {
            cv
        } else {
            None
        })
    } by {
        let t = ts[i];
        assert(first_of(z, t) is None);
        lemma_first_of_opt(pfcp_ie::FORWARDING_PARAMETERS, cv, z, t);
        lemma_first_of_cons((pfcp_ie::APPLY_ACTION, be16(f.apply_action)), t3, t);
        lemma_first_of_cons((pfcp_ie::FAR_ID, be32(f.far_id)), t2, t);
    }
    assert(ts[0] == pfcp_ie::FAR_ID && ts[1] == pfcp_ie::APPLY_ACTION && ts[2] == pfcp_ie::FORWARDING_PARAMETERS
        && ts[3] == pfcp_ie::UPDATE_FORWARDING_PARAMETERS && ts[4] == pfcp_ie::BAR_ID);
    assert(be16(f.apply_action).len() == 2);
    if forw {
        assert(fp_value(ies) == Some(fpv));
        lemma_parse_fp(f);
        lemma_fp_lookups(f);
        let fp = p.forwarding_parameters.unwrap();
        match f.outer_header_creation {
            Some((d, t, v4, v6)) => {
                let o = fp.outer_header_creation.unwrap();
                lemma_smf_ohc_reads_back(d, t, v4, v6, o);
            },
            None => {},
        }
    } else {
        assert(fp_value(ies) is None);
    }
}

} // verus!
