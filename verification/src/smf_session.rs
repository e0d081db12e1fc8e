//! Bodies of the PFCP session messages that the SMF sends (TS 29.244 7.5):
//! Session Establishment, Modification and Deletion Requests.

use vstd::prelude::*;
use crate::wire::{be16, be32, tlv, concat_map, lemma_concat_map_step, lemma_concat_map_elem_len};
use crate::ie::{flag, f_seid_value, dns_labels};
use crate::pfcp::pfcp_ie;
use crate::smf_n4::{
    PfcpMessageBuilder, PdrParams, FarParams, QerParams, UrrParams, BarParams, opt_u8_tlv, str_bytes,
    opt_slice, user_id_value, s_nssai_value, create_pdr_value, create_far_value, create_qer_value,
    create_urr_value, create_bar_value, build_create_pdr, build_create_far, build_create_qer,
    build_create_urr, build_create_bar, lemma_dns_labels_len, update_pdr_value, build_update_pdr,
    build_remove_pdr, update_far_activate_value, build_update_far_activate, update_far_deactivate_value,
    build_update_far_deactivate, build_remove_far, build_update_qer, build_remove_qer, update_urr_value,
    build_update_urr, build_remove_urr,
};

verus! {

/// One grouped IE of the given type for each item, in order, whose value is
/// `value` of the item.
pub open spec fn grouped_ies<T>(ie_type: u16, items: Seq<T>, value: spec_fn(T) -> Seq<u8>) -> Seq<u8> {
    concat_map(items, |x: T| tlv(ie_type, value(x)))
}

/// Appends one grouped IE per item; `build` encodes an item's value.
fn add_grouped<T, F: Fn(&T) -> Vec<u8>>(
    b: &mut PfcpMessageBuilder,
    ie_type: u16,
    items: &[T],
    build: F,
    Ghost(value): Ghost<spec_fn(T) -> Seq<u8>>,
)
    requires
        forall|x: &T| value(*x).len() <= isize::MAX ==> build.requires((x,)),
        forall|x: &T, v: Vec<u8>| build.ensures((x,), v) ==> v@ == value(*x),
        old(b)@.len() + grouped_ies(ie_type, items@, value).len() <= isize::MAX,
    ensures
        final(b)@ == old(b)@ + grouped_ies(ie_type, items@, value),
{
    let ghost f = |x: T| tlv(ie_type, value(x));
    let ghost head = b@;
    let n = items.len();
    let mut i: usize = 0;
    while i < n
        invariant
            n == items@.len(),
            i <= n,
            f == (|x: T| tlv(ie_type, value(x))),
            forall|x: &T| value(*x).len() <= isize::MAX ==> build.requires((x,)),
            forall|x: &T, v: Vec<u8>| build.ensures((x,), v) ==> v@ == value(*x),
            head.len() + concat_map(items@, f).len() <= isize::MAX,
            b@ == head + concat_map(items@.take(i as int), f),
        decreases n - i,
    {
        proof {
            lemma_concat_map_step(items@, f, i as int);
            lemma_concat_map_elem_len(items@, f, i as int);
        }
        let v = build(&items[i]);
        b.add_tlv(ie_type, v.as_slice());
        i = i + 1;
    }
    assert(items@.take(n as int) =~= items@);
}

/// A User ID given as (IMSI, IMEISV, MSISDN).
pub open spec fn opt_user_id_tlv(user_id: Option<(&[u8], Option<&[u8]>, Option<&[u8]>)>) -> Seq<u8> {
    match user_id {
        Some((imsi, imeisv, msisdn)) => tlv(
            pfcp_ie::USER_ID,
            user_id_value(Some(imsi@), opt_slice(imeisv), opt_slice(msisdn)),
        ),
        None => Seq::empty(),
    }
}

/// An APN/DNN IE, when a name is given.
pub open spec fn opt_apn_tlv(apn: Option<&str>) -> Seq<u8> {
    match apn {
        Some(a) => tlv(pfcp_ie::APN_DNN, dns_labels(str_bytes(a))),
        None => Seq::empty(),
    }
}

/// An S-NSSAI IE, when one is given.
pub open spec fn opt_s_nssai_tlv(s_nssai: Option<(u8, Option<u32>)>) -> Seq<u8> {
    match s_nssai {
        Some((sst, sd)) => tlv(pfcp_ie::S_NSSAI, s_nssai_value(sst, sd)),
        None => Seq::empty(),
    }
}

/// The IEs of a Session Establishment Request before its rules: Node ID,
/// CP F-SEID, then PDN Type, User ID, APN/DNN and S-NSSAI when given, and
/// PFCPSEReq-Flags with RESTI when the session is being restored.
pub open spec fn establishment_head(
    smf_n4_seid: u64,
    node_id: Seq<u8>,
    local_addr_v4: Option<[u8; 4]>,
    local_addr_v6: Option<[u8; 16]>,
    pdn_type: Option<u8>,
    apn_dnn: Option<&str>,
    s_nssai: Option<(u8, Option<u32>)>,
    user_id: Option<(&[u8], Option<&[u8]>, Option<&[u8]>)>,
    restoration_indication: bool,
) -> Seq<u8> {
    tlv(pfcp_ie::NODE_ID, node_id) + tlv(pfcp_ie::F_SEID, f_seid_value(smf_n4_seid, local_addr_v4, local_addr_v6))
        + opt_u8_tlv(pfcp_ie::PDN_TYPE, pdn_type) + opt_user_id_tlv(user_id) + opt_apn_tlv(apn_dnn)
        + opt_s_nssai_tlv(s_nssai) + if restoration_indication {
        tlv(pfcp_ie::PFCPSEREQ_FLAGS, seq![0x01u8])
    } else {
        Seq::empty()
    }
}

/// Appends a User ID IE when one is given.
fn add_opt_user_id(b: &mut PfcpMessageBuilder, user_id: Option<(&[u8], Option<&[u8]>, Option<&[u8]>)>)
    requires
        old(b)@.len() + opt_user_id_tlv(user_id).len() <= isize::MAX,
    ensures
        final(b)@ == old(b)@ + opt_user_id_tlv(user_id),
{
    if let Some((imsi, imeisv, msisdn)) = user_id {
        b.add_user_id(Some(imsi), imeisv, msisdn);
    } else {
        assert(b@ =~= b@ + opt_user_id_tlv(user_id));
    }
}

/// Appends an APN/DNN IE when a name is given.
fn add_opt_apn(b: &mut PfcpMessageBuilder, apn_dnn: Option<&str>)
    requires
        old(b)@.len() + opt_apn_tlv(apn_dnn).len() <= isize::MAX,
    ensures
        final(b)@ == old(b)@ + opt_apn_tlv(apn_dnn),
{
    if let Some(apn) = apn_dnn {
        proof {
            lemma_dns_labels_len(str_bytes(apn));
        }
        b.add_apn_dnn(apn);
    } else {
        assert(b@ =~= b@ + opt_apn_tlv(apn_dnn));
    }
}

/// Appends the IEs of `establishment_head`.
#[verifier::spinoff_prover]
fn add_establishment_head(
    b: &mut PfcpMessageBuilder,
    smf_n4_seid: u64,
    node_id: &[u8],
    local_addr_v4: Option<[u8; 4]>,
    local_addr_v6: Option<[u8; 16]>,
    pdn_type: Option<u8>,
    apn_dnn: Option<&str>,
    s_nssai: Option<(u8, Option<u32>)>,
    user_id: Option<(&[u8], Option<&[u8]>, Option<&[u8]>)>,
    restoration_indication: bool,
)
    requires
        old(b)@.len() + establishment_head(
            smf_n4_seid,
            node_id@,
            local_addr_v4,
            local_addr_v6,
            pdn_type,
            apn_dnn,
            s_nssai,
            user_id,
            restoration_indication,
        ).len() <= isize::MAX,
    ensures
        final(b)@ == old(b)@ + establishment_head(
            smf_n4_seid,
            node_id@,
            local_addr_v4,
            local_addr_v6,
            pdn_type,
            apn_dnn,
            s_nssai,
            user_id,
            restoration_indication,
        ),
{
    let ghost start = b@;
    let ghost p_node = tlv(pfcp_ie::NODE_ID, node_id@);
    let ghost p_seid = tlv(pfcp_ie::F_SEID, f_seid_value(smf_n4_seid, local_addr_v4, local_addr_v6));
    let ghost p_pdn = opt_u8_tlv(pfcp_ie::PDN_TYPE, pdn_type);
    let ghost p_user = opt_user_id_tlv(user_id);
    let ghost p_apn = opt_apn_tlv(apn_dnn);
    let ghost p_nssai = opt_s_nssai_tlv(s_nssai);
    let ghost p_resti = if restoration_indication {
        tlv(pfcp_ie::PFCPSEREQ_FLAGS, seq![0x01u8])
    } else {
        Seq::<u8>::empty()
    };
    let ghost whole = establishment_head(
        smf_n4_seid,
        node_id@,
        local_addr_v4,
        local_addr_v6,
        pdn_type,
        apn_dnn,
        s_nssai,
        user_id,
        restoration_indication,
    );
    assert(whole.len() == p_node.len() + p_seid.len() + p_pdn.len() + p_user.len() + p_apn.len() + p_nssai.len()
        + p_resti.len());
    b.add_node_id(node_id);
    b.add_f_seid(smf_n4_seid, local_addr_v4, local_addr_v6);
    if let Some(pdn) = pdn_type {
        b.add_pdn_type(pdn);
    } else {
        assert(b@ =~= b@ + p_pdn);
    }
    let ghost s1 = b@;
    add_opt_user_id(b, user_id);
    add_opt_apn(b, apn_dnn);
    let ghost s2 = b@;
    if let Some((sst, sd)) = s_nssai {
        b.add_s_nssai(sst, sd);
    } else {
        assert(b@ =~= b@ + p_nssai);
    }
    if restoration_indication {
        b.add_pfcpsereq_flags(true);
    } else {
        assert(b@ =~= b@ + p_resti);
    }
    assert(s1 =~= start + p_node + p_seid + p_pdn);
    assert(s2 =~= s1 + p_user + p_apn);
    assert(b@ =~= s2 + p_nssai + p_resti);
    assert(b@ =~= start + whole);
}

/// Builds the body of a PFCP Session Establishment Request without rules.
pub fn build_session_establishment_request(
    smf_n4_seid: u64,
    node_id: &[u8],
    local_addr_v4: Option<[u8; 4]>,
    local_addr_v6: Option<[u8; 16]>,
    pdn_type: Option<u8>,
    apn_dnn: Option<&str>,
    s_nssai: Option<(u8, Option<u32>)>,
    user_id: Option<(&[u8], Option<&[u8]>, Option<&[u8]>)>,
    restoration_indication: bool,
) -> (v: Vec<u8>)
    requires
        establishment_head(
            smf_n4_seid,
            node_id@,
            local_addr_v4,
            local_addr_v6,
            pdn_type,
            apn_dnn,
            s_nssai,
            user_id,
            restoration_indication,
        ).len() <= isize::MAX,
    ensures
        v@ == establishment_head(
            smf_n4_seid,
            node_id@,
            local_addr_v4,
            local_addr_v6,
            pdn_type,
            apn_dnn,
            s_nssai,
            user_id,
            restoration_indication,
        ),
{
    let mut b = PfcpMessageBuilder::new();
    add_establishment_head(
        &mut b,
        smf_n4_seid,
        node_id,
        local_addr_v4,
        local_addr_v6,
        pdn_type,
        apn_dnn,
        s_nssai,
        user_id,
        restoration_indication,
    );
    b.build()
}

/// The rule IEs of a full Session Establishment Request: Create PDR, Create
/// FAR, Create QER, Create URR and Create BAR, one per rule, in that order.
pub open spec fn establishment_rules(
    pdrs: Seq<PdrParams>,
    fars: Seq<FarParams>,
    qers: Seq<QerParams>,
    urrs: Seq<UrrParams>,
    bars: Seq<BarParams>,
) -> Seq<u8> {
    grouped_ies(pfcp_ie::CREATE_PDR, pdrs, |p: PdrParams| create_pdr_value(p)) + grouped_ies(
        pfcp_ie::CREATE_FAR,
        fars,
        |p: FarParams| create_far_value(p),
    ) + grouped_ies(pfcp_ie::CREATE_QER, qers, |p: QerParams| create_qer_value(p)) + grouped_ies(
        pfcp_ie::CREATE_URR,
        urrs,
        |p: UrrParams| create_urr_value(p),
    ) + grouped_ies(pfcp_ie::CREATE_BAR, bars, |p: BarParams| create_bar_value(p))
}

/// Builds the body of a PFCP Session Establishment Request with its rules.
#[verifier::spinoff_prover]
pub fn build_session_establishment_request_full(
    smf_n4_seid: u64,
    node_id: &[u8],
    local_addr_v4: Option<[u8; 4]>,
    local_addr_v6: Option<[u8; 16]>,
    pdn_type: Option<u8>,
    apn_dnn: Option<&str>,
    s_nssai: Option<(u8, Option<u32>)>,
    user_id: Option<(&[u8], Option<&[u8]>, Option<&[u8]>)>,
    restoration_indication: bool,
    create_pdrs: &[PdrParams],
    create_fars: &[FarParams],
    create_qers: &[QerParams],
    create_urrs: &[UrrParams],
    create_bars: &[BarParams],
) -> (v: Vec<u8>)
    requires
        establishment_head(
            smf_n4_seid,
            node_id@,
            local_addr_v4,
            local_addr_v6,
            pdn_type,
            apn_dnn,
            s_nssai,
            user_id,
            restoration_indication,
        ).len() + establishment_rules(create_pdrs@, create_fars@, create_qers@, create_urrs@, create_bars@).len()
            <= isize::MAX,
    ensures
        v@ == establishment_head(
            smf_n4_seid,
            node_id@,
            local_addr_v4,
            local_addr_v6,
            pdn_type,
            apn_dnn,
            s_nssai,
            user_id,
            restoration_indication,
        ) + establishment_rules(create_pdrs@, create_fars@, create_qers@, create_urrs@, create_bars@),
{
    let ghost g_pdr = grouped_ies(pfcp_ie::CREATE_PDR, create_pdrs@, |p: PdrParams| create_pdr_value(p));
    let ghost g_far = grouped_ies(pfcp_ie::CREATE_FAR, create_fars@, |p: FarParams| create_far_value(p));
    let ghost g_qer = grouped_ies(pfcp_ie::CREATE_QER, create_qers@, |p: QerParams| create_qer_value(p));
    let ghost g_urr = grouped_ies(pfcp_ie::CREATE_URR, create_urrs@, |p: UrrParams| create_urr_value(p));
    let ghost g_bar = grouped_ies(pfcp_ie::CREATE_BAR, create_bars@, |p: BarParams| create_bar_value(p));
    let ghost rules = establishment_rules(create_pdrs@, create_fars@, create_qers@, create_urrs@, create_bars@);
    assert(rules.len() == g_pdr.len() + g_far.len() + g_qer.len() + g_urr.len() + g_bar.len());
    let mut b = PfcpMessageBuilder::new();
    add_establishment_head(
        &mut b,
        smf_n4_seid,
        node_id,
        local_addr_v4,
        local_addr_v6,
        pdn_type,
        apn_dnn,
        s_nssai,
        user_id,
        restoration_indication,
    );
    let ghost head = b@;
    add_grouped(
        &mut b,
        pfcp_ie::CREATE_PDR,
        create_pdrs,
        build_create_pdr,
        Ghost(|p: PdrParams| create_pdr_value(p)),
    );
    add_grouped(
        &mut b,
        pfcp_ie::CREATE_FAR,
        create_fars,
        build_create_far,
        Ghost(|p: FarParams| create_far_value(p)),
    );
    add_grouped(
        &mut b,
        pfcp_ie::CREATE_QER,
        create_qers,
        build_create_qer,
        Ghost(|p: QerParams| create_qer_value(p)),
    );
    add_grouped(
        &mut b,
        pfcp_ie::CREATE_URR,
        create_urrs,
        build_create_urr,
        Ghost(|p: UrrParams| create_urr_value(p)),
    );
    add_grouped(
        &mut b,
        pfcp_ie::CREATE_BAR,
        create_bars,
        build_create_bar,
        Ghost(|p: BarParams| create_bar_value(p)),
    );
    assert(b@ =~= head + rules);
    b.build()
}

/// An Update FAR that activates forwarding: (FAR ID, destination interface,
/// outer header creation, whether End Marker packets are asked for).
pub type FarActivation = (u32, u8, Option<(u16, u32, Option<[u8; 4]>, Option<[u8; 16]>)>, bool);

/// The rule changes of a PFCP Session Modification Request.
#[derive(Debug, Default)]
pub struct SessionModificationParams {
    /// PDRs to create
    pub create_pdrs: Vec<PdrParams>,
    /// PDRs to update: (PDR ID, outer header removal)
    pub update_pdrs: Vec<(u16, Option<u8>)>,
    /// PDRs to remove
    pub remove_pdr_ids: Vec<u16>,
    /// FARs to create
    pub create_fars: Vec<FarParams>,
    /// FARs to update so that they forward
    pub update_fars_activate: Vec<FarActivation>,
    /// FARs to update so that they buffer and notify
    pub update_fars_deactivate: Vec<u32>,
    /// FARs to remove
    pub remove_far_ids: Vec<u32>,
    /// QERs to create
    pub create_qers: Vec<QerParams>,
    /// QERs to update
    pub update_qers: Vec<QerParams>,
    /// QERs to remove
    pub remove_qer_ids: Vec<u32>,
    /// URRs to create
    pub create_urrs: Vec<UrrParams>,
    /// URRs to update: (parameters, modify flags)
    pub update_urrs: Vec<(UrrParams, u64)>,
    /// URRs to remove
    pub remove_urr_ids: Vec<u32>,
}

/// Whether some activated FAR asks for End Marker packets.
pub open spec fn end_marker_requested(activations: Seq<FarActivation>) -> bool {
    exists|i: int| 0 <= i < activations.len() && (#[trigger] activations[i]).3
}

/// The PFCPSMReq-Flags IE with SNDEM (TS 29.244 8.2.50) when some activated
/// FAR asks for End Marker packets; nothing otherwise.
pub open spec fn sndem_tlv(activations: Seq<FarActivation>) -> Seq<u8> {
    if end_marker_requested(activations) {
        tlv(pfcp_ie::PFCPSMREQ_FLAGS, seq![0x02u8])
    } else {
        Seq::empty()
    }
}

/// The PDR changes of a modification: Create, Update and Remove PDR IEs.
pub open spec fn modification_pdr_ies(p: SessionModificationParams) -> Seq<u8> {
    grouped_ies(pfcp_ie::CREATE_PDR, p.create_pdrs@, |x: PdrParams| create_pdr_value(x)) + grouped_ies(
        pfcp_ie::UPDATE_PDR,
        p.update_pdrs@,
        |u: (u16, Option<u8>)| update_pdr_value(u.0, u.1),
    ) + grouped_ies(pfcp_ie::REMOVE_PDR, p.remove_pdr_ids@, |id: u16| tlv(pfcp_ie::PDR_ID, be16(id)))
}

/// The FAR changes of a modification: Create FAR, Update FAR (activations,
/// then deactivations) and Remove FAR IEs.
pub open spec fn modification_far_ies(p: SessionModificationParams) -> Seq<u8> {
    grouped_ies(pfcp_ie::CREATE_FAR, p.create_fars@, |x: FarParams| create_far_value(x)) + grouped_ies(
        pfcp_ie::UPDATE_FAR,
        p.update_fars_activate@,
        |a: FarActivation| update_far_activate_value(a.0, a.1, a.2),
    ) + grouped_ies(pfcp_ie::UPDATE_FAR, p.update_fars_deactivate@, |id: u32| update_far_deactivate_value(id))
        + grouped_ies(pfcp_ie::REMOVE_FAR, p.remove_far_ids@, |id: u32| tlv(pfcp_ie::FAR_ID, be32(id)))
}

/// The QER changes of a modification: Create, Update and Remove QER IEs.
pub open spec fn modification_qer_ies(p: SessionModificationParams) -> Seq<u8> {
    grouped_ies(pfcp_ie::CREATE_QER, p.create_qers@, |x: QerParams| create_qer_value(x)) + grouped_ies(
        pfcp_ie::UPDATE_QER,
        p.update_qers@,
        |x: QerParams| create_qer_value(x),
    ) + grouped_ies(pfcp_ie::REMOVE_QER, p.remove_qer_ids@, |id: u32| tlv(pfcp_ie::QER_ID, be32(id)))
}

/// The URR changes of a modification: Create, Update and Remove URR IEs.
pub open spec fn modification_urr_ies(p: SessionModificationParams) -> Seq<u8> {
    grouped_ies(pfcp_ie::CREATE_URR, p.create_urrs@, |x: UrrParams| create_urr_value(x)) + grouped_ies(
        pfcp_ie::UPDATE_URR,
        p.update_urrs@,
        |u: (UrrParams, u64)| update_urr_value(u.0, u.1),
    ) + grouped_ies(pfcp_ie::REMOVE_URR, p.remove_urr_ids@, |id: u32| tlv(pfcp_ie::URR_ID, be32(id)))
}

/// The body of a Session Modification Request: SNDEM when asked for, then
/// the PDR, FAR, QER and URR changes.
pub open spec fn modification_request_value(p: SessionModificationParams) -> Seq<u8> {
    sndem_tlv(p.update_fars_activate@) + modification_pdr_ies(p) + modification_far_ies(p)
        + modification_qer_ies(p) + modification_urr_ies(p)
}

/// Whether some activation asks for End Marker packets.
fn any_end_marker(activations: &Vec<FarActivation>) -> (r: bool)
    ensures
        r == end_marker_requested(activations@),
{
    let n = activations.len();
    let mut i: usize = 0;
    while i < n
        invariant
            n == activations@.len(),
            i <= n,
            forall|j: int| 0 <= j < i ==> !(#[trigger] activations@[j]).3,
        decreases n - i,
    {
        if activations[i].3 {
            assert(activations@[i as int].3);
            return true;
        }
        i = i + 1;
    }
    false
}

/// Update PDR value of a (PDR ID, outer header removal) pair.
fn update_pdr_ie(u: &(u16, Option<u8>)) -> (v: Vec<u8>)
    ensures
        v@ == update_pdr_value(u.0, u.1),
{
    build_update_pdr(u.0, u.1)
}

/// Remove PDR value of a PDR ID.
fn remove_pdr_ie(id: &u16) -> (v: Vec<u8>)
    ensures
        v@ == tlv(pfcp_ie::PDR_ID, be16(*id)),
{
    build_remove_pdr(*id)
}

/// Update FAR value of an activation.
fn update_far_activate_ie(a: &FarActivation) -> (v: Vec<u8>)
    ensures
        v@ == update_far_activate_value(a.0, a.1, a.2),
{
    build_update_far_activate(a.0, a.1, a.2, a.3)
}

/// Update FAR value of a deactivation.
fn update_far_deactivate_ie(id: &u32) -> (v: Vec<u8>)
    ensures
        v@ == update_far_deactivate_value(*id),
{
    build_update_far_deactivate(*id)
}

/// Remove FAR value of a FAR ID.
fn remove_far_ie(id: &u32) -> (v: Vec<u8>)
    ensures
        v@ == tlv(pfcp_ie::FAR_ID, be32(*id)),
{
    build_remove_far(*id)
}

/// Remove QER value of a QER ID.
fn remove_qer_ie(id: &u32) -> (v: Vec<u8>)
    ensures
        v@ == tlv(pfcp_ie::QER_ID, be32(*id)),
{
    build_remove_qer(*id)
}

/// Update URR value of a (parameters, modify flags) pair.
fn update_urr_ie(u: &(UrrParams, u64)) -> (v: Vec<u8>)
    ensures
        v@ == update_urr_value(u.0, u.1),
{
    build_update_urr(&u.0, u.1)
}

/// Remove URR value of a URR ID.
fn remove_urr_ie(id: &u32) -> (v: Vec<u8>)
    ensures
        v@ == tlv(pfcp_ie::URR_ID, be32(*id)),
{
    build_remove_urr(*id)
}

/// Appends the PDR changes.
fn add_pdr_changes(b: &mut PfcpMessageBuilder, params: &SessionModificationParams)
    requires
        old(b)@.len() + modification_pdr_ies(*params).len() <= isize::MAX,
    ensures
        final(b)@ == old(b)@ + modification_pdr_ies(*params),
{
    let ghost start = b@;
    let ghost g1 = grouped_ies(pfcp_ie::CREATE_PDR, params.create_pdrs@, |x: PdrParams| create_pdr_value(x));
    let ghost g2 = grouped_ies(
        pfcp_ie::UPDATE_PDR,
        params.update_pdrs@,
        |u: (u16, Option<u8>)| update_pdr_value(u.0, u.1),
    );
    let ghost g3 = grouped_ies(pfcp_ie::REMOVE_PDR, params.remove_pdr_ids@, |id: u16| tlv(pfcp_ie::PDR_ID, be16(id)));
    assert(modification_pdr_ies(*params).len() == g1.len() + g2.len() + g3.len());
    add_grouped(
        b,
        pfcp_ie::CREATE_PDR,
        params.create_pdrs.as_slice(),
        build_create_pdr,
        Ghost(|x: PdrParams| create_pdr_value(x)),
    );
    add_grouped(
        b,
        pfcp_ie::UPDATE_PDR,
        params.update_pdrs.as_slice(),
        update_pdr_ie,
        Ghost(|u: (u16, Option<u8>)| update_pdr_value(u.0, u.1)),
    );
    add_grouped(
        b,
        pfcp_ie::REMOVE_PDR,
        params.remove_pdr_ids.as_slice(),
        remove_pdr_ie,
        Ghost(|id: u16| tlv(pfcp_ie::PDR_ID, be16(id))),
    );
    assert(b@ =~= start + modification_pdr_ies(*params));
}

/// Appends the FAR changes.
fn add_far_changes(b: &mut PfcpMessageBuilder, params: &SessionModificationParams)
    requires
        old(b)@.len() + modification_far_ies(*params).len() <= isize::MAX,
    ensures
        final(b)@ == old(b)@ + modification_far_ies(*params),
{
    let ghost start = b@;
    let ghost g1 = grouped_ies(pfcp_ie::CREATE_FAR, params.create_fars@, |x: FarParams| create_far_value(x));
    let ghost g2 = grouped_ies(
        pfcp_ie::UPDATE_FAR,
        params.update_fars_activate@,
        |a: FarActivation| update_far_activate_value(a.0, a.1, a.2),
    );
    let ghost g3 = grouped_ies(
        pfcp_ie::UPDATE_FAR,
        params.update_fars_deactivate@,
        |id: u32| update_far_deactivate_value(id),
    );
    let ghost g4 = grouped_ies(pfcp_ie::REMOVE_FAR, params.remove_far_ids@, |id: u32| tlv(pfcp_ie::FAR_ID, be32(id)));
    assert(modification_far_ies(*params).len() == g1.len() + g2.len() + g3.len() + g4.len());
    add_grouped(
        b,
        pfcp_ie::CREATE_FAR,
        params.create_fars.as_slice(),
        build_create_far,
        Ghost(|x: FarParams| create_far_value(x)),
    );
    add_grouped(
        b,
        pfcp_ie::UPDATE_FAR,
        params.update_fars_activate.as_slice(),
        update_far_activate_ie,
        Ghost(|a: FarActivation| update_far_activate_value(a.0, a.1, a.2)),
    );
    add_grouped(
        b,
        pfcp_ie::UPDATE_FAR,
        params.update_fars_deactivate.as_slice(),
        update_far_deactivate_ie,
        Ghost(|id: u32| update_far_deactivate_value(id)),
    );
    add_grouped(
        b,
        pfcp_ie::REMOVE_FAR,
        params.remove_far_ids.as_slice(),
        remove_far_ie,
        Ghost(|id: u32| tlv(pfcp_ie::FAR_ID, be32(id))),
    );
    assert(b@ =~= start + modification_far_ies(*params));
}

/// Appends the QER changes.
fn add_qer_changes(b: &mut PfcpMessageBuilder, params: &SessionModificationParams)
    requires
        old(b)@.len() + modification_qer_ies(*params).len() <= isize::MAX,
    ensures
        final(b)@ == old(b)@ + modification_qer_ies(*params),
{
    let ghost start = b@;
    let ghost g1 = grouped_ies(pfcp_ie::CREATE_QER, params.create_qers@, |x: QerParams| create_qer_value(x));
    let ghost g2 = grouped_ies(pfcp_ie::UPDATE_QER, params.update_qers@, |x: QerParams| create_qer_value(x));
    let ghost g3 = grouped_ies(pfcp_ie::REMOVE_QER, params.remove_qer_ids@, |id: u32| tlv(pfcp_ie::QER_ID, be32(id)));
    assert(modification_qer_ies(*params).len() == g1.len() + g2.len() + g3.len());
    add_grouped(
        b,
        pfcp_ie::CREATE_QER,
        params.create_qers.as_slice(),
        build_create_qer,
        Ghost(|x: QerParams| create_qer_value(x)),
    );
    add_grouped(
        b,
        pfcp_ie::UPDATE_QER,
        params.update_qers.as_slice(),
        build_update_qer,
        Ghost(|x: QerParams| create_qer_value(x)),
    );
    add_grouped(
        b,
        pfcp_ie::REMOVE_QER,
        params.remove_qer_ids.as_slice(),
        remove_qer_ie,
        Ghost(|id: u32| tlv(pfcp_ie::QER_ID, be32(id))),
    );
    assert(b@ =~= start + modification_qer_ies(*params));
}

/// Appends the URR changes.
fn add_urr_changes(b: &mut PfcpMessageBuilder, params: &SessionModificationParams)
    requires
        old(b)@.len() + modification_urr_ies(*params).len() <= isize::MAX,
    ensures
        final(b)@ == old(b)@ + modification_urr_ies(*params),
{
    let ghost start = b@;
    let ghost g1 = grouped_ies(pfcp_ie::CREATE_URR, params.create_urrs@, |x: UrrParams| create_urr_value(x));
    let ghost g2 = grouped_ies(
        pfcp_ie::UPDATE_URR,
        params.update_urrs@,
        |u: (UrrParams, u64)| update_urr_value(u.0, u.1),
    );
    let ghost g3 = grouped_ies(pfcp_ie::REMOVE_URR, params.remove_urr_ids@, |id: u32| tlv(pfcp_ie::URR_ID, be32(id)));
    assert(modification_urr_ies(*params).len() == g1.len() + g2.len() + g3.len());
    add_grouped(
        b,
        pfcp_ie::CREATE_URR,
        params.create_urrs.as_slice(),
        build_create_urr,
        Ghost(|x: UrrParams| create_urr_value(x)),
    );
    add_grouped(
        b,
        pfcp_ie::UPDATE_URR,
        params.update_urrs.as_slice(),
        update_urr_ie,
        Ghost(|u: (UrrParams, u64)| update_urr_value(u.0, u.1)),
    );
    add_grouped(
        b,
        pfcp_ie::REMOVE_URR,
        params.remove_urr_ids.as_slice(),
        remove_urr_ie,
        Ghost(|id: u32| tlv(pfcp_ie::URR_ID, be32(id))),
    );
    assert(b@ =~= start + modification_urr_ies(*params));
}

/// Builds the body of a PFCP Session Modification Request.
pub fn build_session_modification_request(params: &SessionModificationParams) -> (v: Vec<u8>)
    requires
        modification_request_value(*params).len() <= isize::MAX,
    ensures
        v@ == modification_request_value(*params),
{
    let ghost whole = modification_request_value(*params);
    let ghost p0 = sndem_tlv(params.update_fars_activate@);
    assert(whole.len() == p0.len() + modification_pdr_ies(*params).len() + modification_far_ies(*params).len()
        + modification_qer_ies(*params).len() + modification_urr_ies(*params).len());
    let mut b = PfcpMessageBuilder::new();
    if any_end_marker(&params.update_fars_activate) {
        b.add_u8(pfcp_ie::PFCPSMREQ_FLAGS, 0x02);
    }
    assert(b@ =~= p0);
    add_pdr_changes(&mut b, params);
    add_far_changes(&mut b, params);
    add_qer_changes(&mut b, params);
    add_urr_changes(&mut b, params);
    assert(b@ =~= whole);
    b.build()
}

/// Builds the body of a PFCP Session Deletion Request: it has no IEs.
pub fn build_session_deletion_request() -> (v: Vec<u8>)
    ensures
        v@ == Seq::<u8>::empty(),
{
    Vec::new()
}

/// Grouped IEs are there exactly when there are items: each one is at
/// least a four-octet IE header.
pub proof fn lemma_grouped_ies_empty<T>(ie_type: u16, items: Seq<T>, value: spec_fn(T) -> Seq<u8>)
    ensures
        (grouped_ies(ie_type, items, value).len() == 0) == (items.len() == 0),
        grouped_ies(ie_type, items, value).len() >= 4 * items.len(),
    decreases items.len(),
{
    if items.len() > 0 {
        lemma_grouped_ies_empty(ie_type, items.drop_last(), value);
        assert(grouped_ies(ie_type, items, value) == grouped_ies(ie_type, items.drop_last(), value) + tlv(
            ie_type,
            value(items.last()),
        ));
    }
}

/// Rules appended to a head leave the head in front and are exactly
/// what follows it; they lengthen it exactly when some rule is given.
proof fn lemma_rules_after_head(
    head: Seq<u8>,
    pdrs: Seq<PdrParams>,
    fars: Seq<FarParams>,
    qers: Seq<QerParams>,
    urrs: Seq<UrrParams>,
    bars: Seq<BarParams>,
)
    ensures
        (head + establishment_rules(pdrs, fars, qers, urrs, bars)).subrange(0, head.len() as int) == head,
        (head + establishment_rules(pdrs, fars, qers, urrs, bars)).subrange(
            head.len() as int,
            (head + establishment_rules(pdrs, fars, qers, urrs, bars)).len() as int,
        ) == establishment_rules(pdrs, fars, qers, urrs, bars),
        ((head + establishment_rules(pdrs, fars, qers, urrs, bars)).len() > head.len()) == (pdrs.len() > 0 || fars.len()
            > 0 || qers.len() > 0 || urrs.len() > 0 || bars.len() > 0),
{
    let rules = establishment_rules(pdrs, fars, qers, urrs, bars);
    let full = head + rules;
    assert(full.subrange(0, head.len() as int) =~= head);
    assert(full.subrange(head.len() as int, full.len() as int) =~= rules);
    lemma_grouped_ies_empty(pfcp_ie::CREATE_PDR, pdrs, |p: PdrParams| create_pdr_value(p));
    lemma_grouped_ies_empty(pfcp_ie::CREATE_FAR, fars, |p: FarParams| create_far_value(p));
    lemma_grouped_ies_empty(pfcp_ie::CREATE_QER, qers, |p: QerParams| create_qer_value(p));
    lemma_grouped_ies_empty(pfcp_ie::CREATE_URR, urrs, |p: UrrParams| create_urr_value(p));
    lemma_grouped_ies_empty(pfcp_ie::CREATE_BAR, bars, |p: BarParams| create_bar_value(p));
}

/// The full Session Establishment Request (what
/// `build_session_establishment_request_full` returns) is the basic one
/// (what `build_session_establishment_request` returns for the same first
/// nine arguments) followed by the Create PDR, FAR, QER, URR and BAR IEs,
/// one per rule, in that order (`establishment_rules`); it is longer than
/// the basic one exactly when some rule is given.
pub proof fn lemma_full_request_extends_basic(
    smf_n4_seid: u64,
    node_id: Seq<u8>,
    local_addr_v4: Option<[u8; 4]>,
    local_addr_v6: Option<[u8; 16]>,
    pdn_type: Option<u8>,
    apn_dnn: Option<&str>,
    s_nssai: Option<(u8, Option<u32>)>,
    user_id: Option<(&[u8], Option<&[u8]>, Option<&[u8]>)>,
    restoration_indication: bool,
    pdrs: Seq<PdrParams>,
    fars: Seq<FarParams>,
    qers: Seq<QerParams>,
    urrs: Seq<UrrParams>,
    bars: Seq<BarParams>,
    basic: Seq<u8>,
    full: Seq<u8>,
)
    requires
        basic == establishment_head(
            smf_n4_seid,
            node_id,
            local_addr_v4,
            local_addr_v6,
            pdn_type,
            apn_dnn,
            s_nssai,
            user_id,
            restoration_indication,
        ),
        full == basic + establishment_rules(pdrs, fars, qers, urrs, bars),
    ensures
        full.subrange(0, basic.len() as int) == basic,
        full.subrange(basic.len() as int, full.len() as int) == establishment_rules(pdrs, fars, qers, urrs, bars),
        (full.len() > basic.len()) == (pdrs.len() > 0 || fars.len() > 0 || qers.len() > 0 || urrs.len() > 0
            || bars.len() > 0),
{
    lemma_rules_after_head(basic, pdrs, fars, qers, urrs, bars);
}

} // verus!
