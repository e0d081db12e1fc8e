//! PFCP (N4) messages that the SMF builds (TS 29.244): the information
//! element builder and the grouped IEs of session establishment and
//! modification requests.

use vstd::prelude::*;
use bytes::BytesMut;
use vstd::string::StringSliceAdditionalSpecFns;
use crate::buffer::{
    bytes_mut_contents, bm_with_capacity, bm_new, bm_len, bm_is_empty, bm_clear, bm_to_vec,
    bm_as_slice, bm_put_u8, bm_put_u16, bm_put_u32, bm_put_u64, bm_put_slice,
};
use crate::wire::{be16, be32, be64, tlv, u16_bytes, u32_bytes, u64_bytes, concat_map, lemma_concat_map_step, lemma_concat_map_elem_len};
use crate::pfcp::apply_action;
use crate::pfcp::modify_flags;
use vstd::utf8::encode_utf8;
use crate::ie::{
    opt_v4, opt_v6, opt_u8, opt_be64, opt_be32, opt_be16, flag, f_seid_value, volume_value,
    dns_labels, encode_dns_labels,
};
use crate::pfcp::{PfcpCause, cause_code};
use crate::pfcp::pfcp_ie;

verus! {

/// Builds a sequence of PFCP information elements.
#[derive(Debug)]
pub struct PfcpMessageBuilder {
    buffer: BytesMut,
}

impl View for PfcpMessageBuilder {
    type V = Seq<u8>;

    closed spec fn view(&self) -> Seq<u8> {
        bytes_mut_contents(self.buffer)
    }
}

/// A byte string when present, nothing otherwise.
pub open spec fn opt_bytes(v: Option<Seq<u8>>) -> Seq<u8> {
    match v {
        Some(x) => x,
        None => Seq::empty(),
    }
}

/// A byte string preceded by its length octet (kept modulo 256), when
/// present; nothing otherwise.
pub open spec fn opt_lv(v: Option<Seq<u8>>) -> Seq<u8> {
    match v {
        Some(x) => seq![(x.len() % 0x100) as u8] + x,
        None => Seq::empty(),
    }
}

/// The view of an optional byte slice.
pub open spec fn opt_slice(v: Option<&[u8]>) -> Option<Seq<u8>> {
    match v {
        Some(x) => Some(x@),
        None => None,
    }
}

/// The three low octets of a 24-bit field, big-endian.
pub open spec fn be24(v: u32) -> Seq<u8> {
    seq![(v / 0x1_0000 % 0x100) as u8, (v / 0x100 % 0x100) as u8, (v % 0x100) as u8]
}

/// A 24-bit field when present, nothing otherwise.
pub open spec fn opt_be24(v: Option<u32>) -> Seq<u8> {
    match v {
        Some(x) => be24(x),
        None => Seq::empty(),
    }
}

/// Node ID value for an IPv4 address (TS 29.244 8.2.38): type 0, then the
/// address.
pub open spec fn node_id_ipv4_value(ip: [u8; 4]) -> Seq<u8> {
    seq![0u8] + ip@
}

/// S-NSSAI value (TS 29.244 8.2.199): the SST, then the 24-bit SD, or the
/// reserved "no SD" value FFFFFF when none is given.
pub open spec fn s_nssai_value(sst: u8, sd: Option<u32>) -> Seq<u8> {
    seq![sst] + match sd {
        Some(v) => be24(v),
        None => seq![0xffu8, 0xffu8, 0xffu8],
    }
}

/// User ID value (TS 29.244 8.2.101): flags (IMSIF = 0x01, IMEIF = 0x02,
/// MSISDNF = 0x04), then each present identity as length and bytes.
pub open spec fn user_id_value(imsi: Option<Seq<u8>>, imeisv: Option<Seq<u8>>, msisdn: Option<Seq<u8>>) -> Seq<u8> {
    seq![(flag(imsi.is_some(), 0x01) + flag(imeisv.is_some(), 0x02) + flag(msisdn.is_some(), 0x04)) as u8]
        + opt_lv(imsi) + opt_lv(imeisv) + opt_lv(msisdn)
}

/// F-TEID value as the SMF writes it (TS 29.244 8.2.3): flags (V4 = 0x01,
/// V6 = 0x02, CH = 0x04 when a CHOOSE ID is given), the TEID, the present
/// addresses, then the CHOOSE ID.
pub open spec fn f_teid_value(teid: u32, ipv4: Option<[u8; 4]>, ipv6: Option<[u8; 16]>, choose_id: Option<u8>) -> Seq<u8> {
    seq![(flag(ipv4.is_some(), 0x01) + flag(ipv6.is_some(), 0x02) + flag(choose_id.is_some(), 0x04)) as u8]
        + be32(teid) + opt_v4(ipv4) + opt_v6(ipv6) + opt_u8(choose_id)
}

/// UE IP Address value (TS 29.244 8.2.62): flags (V6 = 0x01, V4 = 0x02,
/// S/D = 0x04 for a destination address), then the present addresses.
pub open spec fn ue_ip_value(ipv4: Option<[u8; 4]>, ipv6: Option<[u8; 16]>, destination: bool) -> Seq<u8> {
    seq![(flag(ipv6.is_some(), 0x01) + flag(ipv4.is_some(), 0x02) + flag(destination, 0x04)) as u8]
        + opt_v4(ipv4) + opt_v6(ipv6)
}

/// Outer Header Creation value (TS 29.244 8.2.56): the description, the
/// TEID, then the present addresses.
pub open spec fn ohc_value(description: u16, teid: u32, ipv4: Option<[u8; 4]>, ipv6: Option<[u8; 16]>) -> Seq<u8> {
    be16(description) + be32(teid) + opt_v4(ipv4) + opt_v6(ipv6)
}

/// `v / d` rounded up.
pub open spec fn div_ceil(v: u64, d: u64) -> u64 {
    (v / d + if v % d != 0 { 1int } else { 0int }) as u64
}

/// A bit rate given in bit/s as the five-octet kbit/s field of MBR and GBR
/// (TS 29.244 8.2.8): the rate divided by 1000, rounded up, in its low five
/// big-endian octets.
pub open spec fn kbps40(bps: u64) -> Seq<u8> {
    be64(div_ceil(bps, 1000)).subrange(3, 8)
}

/// MBR / GBR value: uplink then downlink rate.
pub open spec fn bitrate_value(uplink: u64, downlink: u64) -> Seq<u8> {
    kbps40(uplink) + kbps40(downlink)
}

/// Gate Status octet (TS 29.244 8.2.7): DL gate in bits 1-2, UL gate in bits 3-4.
pub open spec fn gate_status_octet(dl_gate: u8, ul_gate: u8) -> u8 {
    (dl_gate % 4 + (ul_gate % 4) * 4) as u8
}

/// Measurement Method octet (TS 29.244 8.2.40): DURAT = 0x01, VOLUM = 0x02,
/// EVENT = 0x04.
pub open spec fn measurement_method_octet(duration: bool, volume: bool, event: bool) -> u8 {
    (flag(duration, 0x01) + flag(volume, 0x02) + flag(event, 0x04)) as u8
}

/// SDF Filter value (TS 29.244 8.2.5): flags (FD = 0x01, TTC = 0x02,
/// SPI = 0x04, FL = 0x08, BID = 0x10), a spare octet, then each present
/// field: the flow description with its two-octet length, the ToS traffic
/// class, the security parameter index, the 24-bit flow label and the SDF
/// filter ID.
pub open spec fn sdf_filter_value(
    flow_description: Option<Seq<u8>>,
    tos_traffic_class: Option<u16>,
    security_param_index: Option<u32>,
    flow_label: Option<u32>,
    sdf_filter_id: Option<u32>,
) -> Seq<u8> {
    seq![
        (flag(flow_description.is_some(), 0x01) + flag(tos_traffic_class.is_some(), 0x02) + flag(
            security_param_index.is_some(),
            0x04,
        ) + flag(flow_label.is_some(), 0x08) + flag(sdf_filter_id.is_some(), 0x10)) as u8,
        0u8,
    ] + match flow_description {
        Some(fd) => be16((fd.len() % 0x1_0000) as u16) + fd,
        None => Seq::empty(),
    } + opt_be16(tos_traffic_class) + opt_be32(security_param_index) + opt_be24(flow_label) + opt_be32(
        sdf_filter_id,
    )
}

/// The UTF-8 bytes of a string.
pub open spec fn str_bytes(s: &str) -> Seq<u8> {
    s.spec_bytes()
}

impl PfcpMessageBuilder {
    /// An empty builder.
    pub fn new() -> (b: Self)
        ensures
            b@ == Seq::<u8>::empty(),
    {
        PfcpMessageBuilder { buffer: bm_with_capacity(4096) }
    }

    /// An empty builder that reserves `capacity` bytes.
    pub fn with_capacity(capacity: usize) -> (b: Self)
        requires
            capacity <= isize::MAX,
        ensures
            b@ == Seq::<u8>::empty(),
    {
        PfcpMessageBuilder { buffer: bm_with_capacity(capacity) }
    }

    /// The number of bytes built so far.
    pub fn len(&self) -> (n: usize)
        ensures
            n == self@.len(),
    {
        bm_len(&self.buffer)
    }

    /// Whether nothing has been built yet.
    pub fn is_empty(&self) -> (e: bool)
        ensures
            e == (self@.len() == 0),
    {
        bm_is_empty(&self.buffer)
    }

    /// Drops everything built so far.
    pub fn clear(&mut self)
        ensures
            final(self)@ == Seq::<u8>::empty(),
    {
        bm_clear(&mut self.buffer)
    }

    /// The bytes built.
    pub fn build(self) -> (v: Vec<u8>)
        ensures
            v@ == self@,
    {
        bm_to_vec(&self.buffer)
    }

    /// Appends an IE in type-length-value form.
    pub fn add_tlv(&mut self, ie_type: u16, value: &[u8]) -> (r: &mut Self)
        requires
            old(self)@.len() + 4 + value@.len() <= isize::MAX,
        ensures
            r@ == old(self)@ + tlv(ie_type, value@),
            *final(self) == *final(r),
    {
        bm_put_u16(&mut self.buffer, ie_type);
        bm_put_u16(&mut self.buffer, (value.len() % 0x1_0000) as u16);
        bm_put_slice(&mut self.buffer, value);
        self
    }

    /// Appends an IE whose value is one octet.
    pub fn add_u8(&mut self, ie_type: u16, value: u8) -> (r: &mut Self)
        requires
            old(self)@.len() + 5 <= isize::MAX,
        ensures
            r@ == old(self)@ + tlv(ie_type, seq![value]),
            *final(self) == *final(r),
    {
        let v = [value];
        assert(v@ =~= seq![value]);
        self.add_tlv(ie_type, &v)
    }

    /// Appends an IE whose value is a big-endian 16-bit integer.
    pub fn add_u16(&mut self, ie_type: u16, value: u16) -> (r: &mut Self)
        requires
            old(self)@.len() + 6 <= isize::MAX,
        ensures
            r@ == old(self)@ + tlv(ie_type, be16(value)),
            *final(self) == *final(r),
    {
        let v = u16_bytes(value);
        self.add_tlv(ie_type, &v)
    }

    /// Appends an IE whose value is a big-endian 32-bit integer.
    pub fn add_u32(&mut self, ie_type: u16, value: u32) -> (r: &mut Self)
        requires
            old(self)@.len() + 8 <= isize::MAX,
        ensures
            r@ == old(self)@ + tlv(ie_type, be32(value)),
            *final(self) == *final(r),
    {
        let v = u32_bytes(value);
        self.add_tlv(ie_type, &v)
    }

    /// Appends an IE whose value is a big-endian 64-bit integer.
    pub fn add_u64(&mut self, ie_type: u16, value: u64) -> (r: &mut Self)
        requires
            old(self)@.len() + 12 <= isize::MAX,
        ensures
            r@ == old(self)@ + tlv(ie_type, be64(value)),
            *final(self) == *final(r),
    {
        let v = u64_bytes(value);
        self.add_tlv(ie_type, &v)
    }

    /// Appends a Node ID IE whose value is already encoded (it must start
    /// with the Node ID type octet, TS 29.244 8.2.38).
    pub fn add_node_id(&mut self, node_id: &[u8]) -> (r: &mut Self)
        requires
            old(self)@.len() + 4 + node_id@.len() <= isize::MAX,
        ensures
            r@ == old(self)@ + tlv(pfcp_ie::NODE_ID, node_id@),
            *final(self) == *final(r),
    {
        self.add_tlv(pfcp_ie::NODE_ID, node_id)
    }

    /// Appends a Node ID IE for an IPv4 address.
    pub fn add_node_id_ipv4(&mut self, ip: [u8; 4]) -> (r: &mut Self)
        requires
            old(self)@.len() + 9 <= isize::MAX,
        ensures
            r@ == old(self)@ + tlv(pfcp_ie::NODE_ID, node_id_ipv4_value(ip)),
            *final(self) == *final(r),
    {
        let value = [0u8, ip[0], ip[1], ip[2], ip[3]];
        assert(value@ =~= node_id_ipv4_value(ip));
        self.add_tlv(pfcp_ie::NODE_ID, &value)
    }

    /// Appends an F-SEID IE.
    pub fn add_f_seid(&mut self, seid: u64, ipv4: Option<[u8; 4]>, ipv6: Option<[u8; 16]>) -> (r: &mut Self)
        requires
            old(self)@.len() + 4 + f_seid_value(seid, ipv4, ipv6).len() <= isize::MAX,
        ensures
            r@ == old(self)@ + tlv(pfcp_ie::F_SEID, f_seid_value(seid, ipv4, ipv6)),
            *final(self) == *final(r),
    {
        let mut value = bm_new();
        let mut flags: u8 = 0;
        if ipv6.is_some() {
            flags = flags + 0x01;  // V6
        }
        if ipv4.is_some() {
            flags = flags + 0x02;  // V4
        }
        bm_put_u8(&mut value, flags);
        bm_put_u64(&mut value, seid);
        if let Some(addr) = ipv4 {
            bm_put_slice(&mut value, &addr);
        }
        if let Some(addr) = ipv6 {
            bm_put_slice(&mut value, &addr);
        }
        assert(bytes_mut_contents(value) =~= f_seid_value(seid, ipv4, ipv6));
        self.add_tlv(pfcp_ie::F_SEID, bm_as_slice(&value))
    }

    /// Appends a PDR ID IE.
    pub fn add_pdr_id(&mut self, pdr_id: u16) -> (r: &mut Self)
        requires
            old(self)@.len() + 6 <= isize::MAX,
        ensures
            r@ == old(self)@ + tlv(pfcp_ie::PDR_ID, be16(pdr_id)),
            *final(self) == *final(r),
    {
        self.add_u16(pfcp_ie::PDR_ID, pdr_id)
    }

    /// Appends a FAR ID IE.
    pub fn add_far_id(&mut self, far_id: u32) -> (r: &mut Self)
        requires
            old(self)@.len() + 8 <= isize::MAX,
        ensures
            r@ == old(self)@ + tlv(pfcp_ie::FAR_ID, be32(far_id)),
            *final(self) == *final(r),
    {
        self.add_u32(pfcp_ie::FAR_ID, far_id)
    }

    /// Appends a URR ID IE.
    pub fn add_urr_id(&mut self, urr_id: u32) -> (r: &mut Self)
        requires
            old(self)@.len() + 8 <= isize::MAX,
        ensures
            r@ == old(self)@ + tlv(pfcp_ie::URR_ID, be32(urr_id)),
            *final(self) == *final(r),
    {
        self.add_u32(pfcp_ie::URR_ID, urr_id)
    }

    /// Appends a QER ID IE.
    pub fn add_qer_id(&mut self, qer_id: u32) -> (r: &mut Self)
        requires
            old(self)@.len() + 8 <= isize::MAX,
        ensures
            r@ == old(self)@ + tlv(pfcp_ie::QER_ID, be32(qer_id)),
            *final(self) == *final(r),
    {
        self.add_u32(pfcp_ie::QER_ID, qer_id)
    }

    /// Appends a BAR ID IE.
    pub fn add_bar_id(&mut self, bar_id: u8) -> (r: &mut Self)
        requires
            old(self)@.len() + 5 <= isize::MAX,
        ensures
            r@ == old(self)@ + tlv(pfcp_ie::BAR_ID, seq![bar_id]),
            *final(self) == *final(r),
    {
        self.add_u8(pfcp_ie::BAR_ID, bar_id)
    }

    /// Appends a Cause IE.
    pub fn add_cause(&mut self, cause: PfcpCause) -> (r: &mut Self)
        requires
            old(self)@.len() + 5 <= isize::MAX,
        ensures
            r@ == old(self)@ + tlv(pfcp_ie::CAUSE, seq![cause_code(cause)]),
            *final(self) == *final(r),
    {
        self.add_u8(pfcp_ie::CAUSE, cause.as_u8())
    }

    /// Appends a Cause IE with a raw cause octet.
    pub fn add_cause_raw(&mut self, cause: u8) -> (r: &mut Self)
        requires
            old(self)@.len() + 5 <= isize::MAX,
        ensures
            r@ == old(self)@ + tlv(pfcp_ie::CAUSE, seq![cause]),
            *final(self) == *final(r),
    {
        self.add_u8(pfcp_ie::CAUSE, cause)
    }

    /// Appends a Precedence IE.
    pub fn add_precedence(&mut self, precedence: u32) -> (r: &mut Self)
        requires
            old(self)@.len() + 8 <= isize::MAX,
        ensures
            r@ == old(self)@ + tlv(pfcp_ie::PRECEDENCE, be32(precedence)),
            *final(self) == *final(r),
    {
        self.add_u32(pfcp_ie::PRECEDENCE, precedence)
    }

    /// Appends a Source Interface IE.
    pub fn add_source_interface(&mut self, interface: u8) -> (r: &mut Self)
        requires
            old(self)@.len() + 5 <= isize::MAX,
        ensures
            r@ == old(self)@ + tlv(pfcp_ie::SOURCE_INTERFACE, seq![interface]),
            *final(self) == *final(r),
    {
        self.add_u8(pfcp_ie::SOURCE_INTERFACE, interface)
    }

    /// Appends a Destination Interface IE.
    pub fn add_destination_interface(&mut self, interface: u8) -> (r: &mut Self)
        requires
            old(self)@.len() + 5 <= isize::MAX,
        ensures
            r@ == old(self)@ + tlv(pfcp_ie::DESTINATION_INTERFACE, seq![interface]),
            *final(self) == *final(r),
    {
        self.add_u8(pfcp_ie::DESTINATION_INTERFACE, interface)
    }

    /// Appends an Apply Action IE.
    pub fn add_apply_action(&mut self, action: u16) -> (r: &mut Self)
        requires
            old(self)@.len() + 6 <= isize::MAX,
        ensures
            r@ == old(self)@ + tlv(pfcp_ie::APPLY_ACTION, be16(action)),
            *final(self) == *final(r),
    {
        self.add_u16(pfcp_ie::APPLY_ACTION, action)
    }

    /// Appends a PDN Type IE.
    pub fn add_pdn_type(&mut self, pdn_type: u8) -> (r: &mut Self)
        requires
            old(self)@.len() + 5 <= isize::MAX,
        ensures
            r@ == old(self)@ + tlv(pfcp_ie::PDN_TYPE, seq![pdn_type]),
            *final(self) == *final(r),
    {
        self.add_u8(pfcp_ie::PDN_TYPE, pdn_type)
    }

    /// Appends a QFI IE.
    pub fn add_qfi(&mut self, qfi: u8) -> (r: &mut Self)
        requires
            old(self)@.len() + 5 <= isize::MAX,
        ensures
            r@ == old(self)@ + tlv(pfcp_ie::QFI, seq![qfi]),
            *final(self) == *final(r),
    {
        self.add_u8(pfcp_ie::QFI, qfi)
    }

    /// Appends an APN/DNN IE: the name in DNS label form.
    pub fn add_apn_dnn(&mut self, apn: &str) -> (r: &mut Self)
        requires
            old(self)@.len() + 5 + str_bytes(apn).len() <= isize::MAX,
        ensures
            r@ == old(self)@ + tlv(pfcp_ie::APN_DNN, dns_labels(str_bytes(apn))),
            *final(self) == *final(r),
    {
        let fqdn = encode_dns_labels(apn.as_bytes());
        proof {
            lemma_dns_labels_len(str_bytes(apn));
        }
        self.add_tlv(pfcp_ie::APN_DNN, fqdn.as_slice())
    }

    /// Appends an S-NSSAI IE.
    pub fn add_s_nssai(&mut self, sst: u8, sd: Option<u32>) -> (r: &mut Self)
        requires
            old(self)@.len() + 8 <= isize::MAX,
        ensures
            r@ == old(self)@ + tlv(pfcp_ie::S_NSSAI, s_nssai_value(sst, sd)),
            *final(self) == *final(r),
    {
        let mut value = bm_new();
        bm_put_u8(&mut value, sst);
        if let Some(sd_val) = sd {
            // The SD is three octets.
            bm_put_u8(&mut value, (sd_val / 0x1_0000 % 0x100) as u8);
            bm_put_u8(&mut value, (sd_val / 0x100 % 0x100) as u8);
            bm_put_u8(&mut value, (sd_val % 0x100) as u8);
        } else {
            // The S-NSSAI IE has a fixed length, so an absent SD is written as
            // its reserved value FFFFFF ("no SD associated with the SST").
            bm_put_u8(&mut value, 0xFF);
            bm_put_u8(&mut value, 0xFF);
            bm_put_u8(&mut value, 0xFF);
        }
        assert(bytes_mut_contents(value) =~= s_nssai_value(sst, sd));
        self.add_tlv(pfcp_ie::S_NSSAI, bm_as_slice(&value))
    }

    /// Appends a User ID IE.
    pub fn add_user_id(&mut self, imsi: Option<&[u8]>, imeisv: Option<&[u8]>, msisdn: Option<&[u8]>) -> (r: &mut Self)
        requires
            old(self)@.len() + 4 + user_id_value(opt_slice(imsi), opt_slice(imeisv), opt_slice(msisdn)).len()
                <= isize::MAX,
        ensures
            r@ == old(self)@ + tlv(
                pfcp_ie::USER_ID,
                user_id_value(opt_slice(imsi), opt_slice(imeisv), opt_slice(msisdn)),
            ),
            *final(self) == *final(r),
    {
        let ghost total = user_id_value(opt_slice(imsi), opt_slice(imeisv), opt_slice(msisdn));
        let mut value = bm_new();
        let mut flags: u8 = 0;
        if imsi.is_some() {
            flags = flags + 0x01;  // IMSIF
        }
        if imeisv.is_some() {
            flags = flags + 0x02;  // IMEIF
        }
        if msisdn.is_some() {
            flags = flags + 0x04;  // MSISDNF
        }
        bm_put_u8(&mut value, flags);
        assert(bytes_mut_contents(value) =~= seq![flags]);
        if let Some(id) = imsi {
            bm_put_u8(&mut value, (id.len() % 0x100) as u8);
            bm_put_slice(&mut value, id);
        }
        assert(bytes_mut_contents(value) =~= seq![flags] + opt_lv(opt_slice(imsi)));
        if let Some(id) = imeisv {
            bm_put_u8(&mut value, (id.len() % 0x100) as u8);
            bm_put_slice(&mut value, id);
        }
        assert(bytes_mut_contents(value) =~= seq![flags] + opt_lv(opt_slice(imsi)) + opt_lv(opt_slice(imeisv)));
        if let Some(id) = msisdn {
            bm_put_u8(&mut value, (id.len() % 0x100) as u8);
            bm_put_slice(&mut value, id);
        }
        assert(bytes_mut_contents(value) =~= total);
        self.add_tlv(pfcp_ie::USER_ID, bm_as_slice(&value))
    }

    /// Appends a PFCPSEReq-Flags IE (TS 29.244 8.2.149): RESTI = 0x01.
    pub fn add_pfcpsereq_flags(&mut self, restoration_indication: bool) -> (r: &mut Self)
        requires
            old(self)@.len() + 5 <= isize::MAX,
        ensures
            r@ == old(self)@ + tlv(pfcp_ie::PFCPSEREQ_FLAGS, seq![flag(restoration_indication, 0x01) as u8]),
            *final(self) == *final(r),
    {
        let flags: u8 = if restoration_indication { 0x01 } else { 0 };
        self.add_u8(pfcp_ie::PFCPSEREQ_FLAGS, flags)
    }

    /// Appends an Outer Header Removal IE.
    pub fn add_outer_header_removal(&mut self, description: u8) -> (r: &mut Self)
        requires
            old(self)@.len() + 5 <= isize::MAX,
        ensures
            r@ == old(self)@ + tlv(pfcp_ie::OUTER_HEADER_REMOVAL, seq![description]),
            *final(self) == *final(r),
    {
        self.add_u8(pfcp_ie::OUTER_HEADER_REMOVAL, description)
    }

    /// Appends an F-TEID IE. Its flags octet puts V4 in bit 1 and V6 in
    /// bit 2, the reverse of F-SEID and UE IP Address (TS 29.244 8.2.3).
    pub fn add_f_teid(&mut self, teid: u32, ipv4: Option<[u8; 4]>, ipv6: Option<[u8; 16]>, choose_id: Option<u8>) -> (r: &mut Self)
        requires
            old(self)@.len() + 30 <= isize::MAX,
        ensures
            r@ == old(self)@ + tlv(pfcp_ie::F_TEID, f_teid_value(teid, ipv4, ipv6, choose_id)),
            *final(self) == *final(r),
    {
        let mut value = bm_new();
        let mut flags: u8 = 0;
        if ipv4.is_some() {
            flags = flags + 0x01;  // V4
        }
        if ipv6.is_some() {
            flags = flags + 0x02;  // V6
        }
        if choose_id.is_some() {
            flags = flags + 0x04;  // CH
        }
        bm_put_u8(&mut value, flags);
        bm_put_u32(&mut value, teid);
        if let Some(addr) = ipv4 {
            bm_put_slice(&mut value, &addr);
        }
        if let Some(addr) = ipv6 {
            bm_put_slice(&mut value, &addr);
        }
        if let Some(id) = choose_id {
            bm_put_u8(&mut value, id);
        }
        assert(bytes_mut_contents(value) =~= f_teid_value(teid, ipv4, ipv6, choose_id));
        self.add_tlv(pfcp_ie::F_TEID, bm_as_slice(&value))
    }

    /// Appends a UE IP Address IE. The S/D bit is set for a destination
    /// address and clear for a source address; the two are exclusive.
    pub fn add_ue_ip_address(&mut self, ipv4: Option<[u8; 4]>, ipv6: Option<[u8; 16]>, source: bool, destination: bool) -> (r: &mut Self)
        requires
            !(source && destination),
            old(self)@.len() + 25 <= isize::MAX,
        ensures
            r@ == old(self)@ + tlv(pfcp_ie::UE_IP_ADDRESS, ue_ip_value(ipv4, ipv6, destination)),
            *final(self) == *final(r),
    {
        let mut value = bm_new();
        let mut flags: u8 = 0;
        if ipv6.is_some() {
            flags = flags + 0x01;  // V6
        }
        if ipv4.is_some() {
            flags = flags + 0x02;  // V4
        }
        if destination {
            flags = flags + 0x04;  // S/D = 1: destination
        }
        bm_put_u8(&mut value, flags);
        if let Some(addr) = ipv4 {
            bm_put_slice(&mut value, &addr);
        }
        if let Some(addr) = ipv6 {
            bm_put_slice(&mut value, &addr);
        }
        assert(bytes_mut_contents(value) =~= ue_ip_value(ipv4, ipv6, destination));
        self.add_tlv(pfcp_ie::UE_IP_ADDRESS, bm_as_slice(&value))
    }

    /// Appends an Outer Header Creation IE.
    pub fn add_outer_header_creation(&mut self, description: u16, teid: u32, ipv4: Option<[u8; 4]>, ipv6: Option<[u8; 16]>) -> (r: &mut Self)
        requires
            old(self)@.len() + 4 + ohc_value(description, teid, ipv4, ipv6).len() <= isize::MAX,
        ensures
            r@ == old(self)@ + tlv(pfcp_ie::OUTER_HEADER_CREATION, ohc_value(description, teid, ipv4, ipv6)),
            *final(self) == *final(r),
    {
        let mut value = bm_new();
        bm_put_u16(&mut value, description);
        bm_put_u32(&mut value, teid);
        if let Some(addr) = ipv4 {
            bm_put_slice(&mut value, &addr);
        }
        if let Some(addr) = ipv6 {
            bm_put_slice(&mut value, &addr);
        }
        assert(bytes_mut_contents(value) =~= ohc_value(description, teid, ipv4, ipv6));
        self.add_tlv(pfcp_ie::OUTER_HEADER_CREATION, bm_as_slice(&value))
    }

    /// Writes the five-octet kbit/s field of a rate given in bit/s.
    fn put_kbps40(value: &mut BytesMut, bps: u64)
        requires
            bytes_mut_contents(*old(value)).len() + 5 <= isize::MAX,
        ensures
            bytes_mut_contents(*final(value)) == bytes_mut_contents(*old(value)) + kbps40(bps),
    {
        let kbps: u64 = bps / 1000 + if bps % 1000 != 0 { 1 } else { 0 };
        let b = u64_bytes(kbps);
        bm_put_slice(value, &b[3..8]);
    }

    /// Appends an MBR IE; the rates are in bit/s and are written in kbit/s,
    /// rounded up (TS 29.244 8.2.8).
    pub fn add_mbr(&mut self, uplink: u64, downlink: u64) -> (r: &mut Self)
        requires
            old(self)@.len() + 14 <= isize::MAX,
        ensures
            r@ == old(self)@ + tlv(pfcp_ie::MBR, bitrate_value(uplink, downlink)),
            *final(self) == *final(r),
    {
        let mut value = bm_new();
        Self::put_kbps40(&mut value, uplink);
        Self::put_kbps40(&mut value, downlink);
        assert(bytes_mut_contents(value) =~= bitrate_value(uplink, downlink));
        self.add_tlv(pfcp_ie::MBR, bm_as_slice(&value))
    }

    /// Appends a GBR IE; the rates are in bit/s and are written in kbit/s,
    /// rounded up (TS 29.244 8.2.9).
    pub fn add_gbr(&mut self, uplink: u64, downlink: u64) -> (r: &mut Self)
        requires
            old(self)@.len() + 14 <= isize::MAX,
        ensures
            r@ == old(self)@ + tlv(pfcp_ie::GBR, bitrate_value(uplink, downlink)),
            *final(self) == *final(r),
    {
        let mut value = bm_new();
        Self::put_kbps40(&mut value, uplink);
        Self::put_kbps40(&mut value, downlink);
        assert(bytes_mut_contents(value) =~= bitrate_value(uplink, downlink));
        self.add_tlv(pfcp_ie::GBR, bm_as_slice(&value))
    }

    /// Appends a Gate Status IE.
    pub fn add_gate_status(&mut self, dl_gate: u8, ul_gate: u8) -> (r: &mut Self)
        requires
            old(self)@.len() + 5 <= isize::MAX,
        ensures
            r@ == old(self)@ + tlv(pfcp_ie::GATE_STATUS, seq![gate_status_octet(dl_gate, ul_gate)]),
            *final(self) == *final(r),
    {
        let value = dl_gate % 4 + (ul_gate % 4) * 4;
        self.add_u8(pfcp_ie::GATE_STATUS, value)
    }

    /// Appends a Measurement Method IE.
    pub fn add_measurement_method(&mut self, duration: bool, volume: bool, event: bool) -> (r: &mut Self)
        requires
            old(self)@.len() + 5 <= isize::MAX,
        ensures
            r@ == old(self)@ + tlv(
                pfcp_ie::MEASUREMENT_METHOD,
                seq![measurement_method_octet(duration, volume, event)],
            ),
            *final(self) == *final(r),
    {
        let mut flags: u8 = 0;
        if duration {
            flags = flags + 0x01;
        }
        if volume {
            flags = flags + 0x02;
        }
        if event {
            flags = flags + 0x04;
        }
        self.add_u8(pfcp_ie::MEASUREMENT_METHOD, flags)
    }

    /// Appends a Reporting Triggers IE: the low three octets of `triggers`.
    pub fn add_reporting_triggers(&mut self, triggers: u32) -> (r: &mut Self)
        requires
            old(self)@.len() + 7 <= isize::MAX,
        ensures
            r@ == old(self)@ + tlv(pfcp_ie::REPORTING_TRIGGERS, be24(triggers)),
            *final(self) == *final(r),
    {
        let mut value = bm_new();
        bm_put_u8(&mut value, (triggers / 0x1_0000 % 0x100) as u8);
        bm_put_u8(&mut value, (triggers / 0x100 % 0x100) as u8);
        bm_put_u8(&mut value, (triggers % 0x100) as u8);
        assert(bytes_mut_contents(value) =~= be24(triggers));
        self.add_tlv(pfcp_ie::REPORTING_TRIGGERS, bm_as_slice(&value))
    }

    /// Appends a Measurement Period IE (seconds).
    pub fn add_measurement_period(&mut self, seconds: u32) -> (r: &mut Self)
        requires
            old(self)@.len() + 8 <= isize::MAX,
        ensures
            r@ == old(self)@ + tlv(pfcp_ie::MEASUREMENT_PERIOD, be32(seconds)),
            *final(self) == *final(r),
    {
        self.add_u32(pfcp_ie::MEASUREMENT_PERIOD, seconds)
    }

    /// Writes a volume IE value: the flags octet, then each present volume.
    fn put_volume(value: &mut BytesMut, total: Option<u64>, uplink: Option<u64>, downlink: Option<u64>)
        requires
            bytes_mut_contents(*old(value)).len() == 0,
        ensures
            bytes_mut_contents(*final(value)) == volume_value(total, uplink, downlink),
    {
        let mut flags: u8 = 0;
        if total.is_some() {
            flags = flags + 0x01;
        }
        if uplink.is_some() {
            flags = flags + 0x02;
        }
        if downlink.is_some() {
            flags = flags + 0x04;
        }
        bm_put_u8(value, flags);
        if let Some(v) = total {
            bm_put_u64(value, v);
        }
        if let Some(v) = uplink {
            bm_put_u64(value, v);
        }
        if let Some(v) = downlink {
            bm_put_u64(value, v);
        }
        assert(bytes_mut_contents(*value) =~= volume_value(total, uplink, downlink));
    }

    /// Appends a Volume Threshold IE.
    pub fn add_volume_threshold(&mut self, total: Option<u64>, uplink: Option<u64>, downlink: Option<u64>) -> (r: &mut Self)
        requires
            old(self)@.len() + 29 <= isize::MAX,
        ensures
            r@ == old(self)@ + tlv(pfcp_ie::VOLUME_THRESHOLD, volume_value(total, uplink, downlink)),
            *final(self) == *final(r),
    {
        let mut value = bm_new();
        Self::put_volume(&mut value, total, uplink, downlink);
        self.add_tlv(pfcp_ie::VOLUME_THRESHOLD, bm_as_slice(&value))
    }

    /// Appends a Volume Quota IE.
    pub fn add_volume_quota(&mut self, total: Option<u64>, uplink: Option<u64>, downlink: Option<u64>) -> (r: &mut Self)
        requires
            old(self)@.len() + 29 <= isize::MAX,
        ensures
            r@ == old(self)@ + tlv(pfcp_ie::VOLUME_QUOTA, volume_value(total, uplink, downlink)),
            *final(self) == *final(r),
    {
        let mut value = bm_new();
        Self::put_volume(&mut value, total, uplink, downlink);
        self.add_tlv(pfcp_ie::VOLUME_QUOTA, bm_as_slice(&value))
    }

    /// Appends a volume IE of the given type when `on` and a volume is given.
    fn add_volume_when(&mut self, on: bool, ie_type: u16, v: Option<(Option<u64>, Option<u64>, Option<u64>)>)
        requires
            old(self)@.len() + 29 <= isize::MAX,
        ensures
            final(self)@ == old(self)@ + when(on, opt_volume_tlv(ie_type, v)),
            final(self)@.len() <= old(self)@.len() + 29,
    {
        if on {
            if let Some((total, uplink, downlink)) = v {
                let mut value = bm_new();
                Self::put_volume(&mut value, total, uplink, downlink);
                self.add_tlv(ie_type, bm_as_slice(&value));
            }
        }
    }

    /// Appends a 32-bit IE of the given type when `on` and a value is given.
    fn add_u32_when(&mut self, on: bool, ie_type: u16, v: Option<u32>)
        requires
            old(self)@.len() + 8 <= isize::MAX,
        ensures
            final(self)@ == old(self)@ + when(on, opt_u32_tlv(ie_type, v)),
            final(self)@.len() <= old(self)@.len() + 8,
    {
        if on {
            if let Some(x) = v {
                self.add_u32(ie_type, x);
            }
        }
    }

    /// Appends a Time Threshold IE (seconds).
    pub fn add_time_threshold(&mut self, seconds: u32) -> (r: &mut Self)
        requires
            old(self)@.len() + 8 <= isize::MAX,
        ensures
            r@ == old(self)@ + tlv(pfcp_ie::TIME_THRESHOLD, be32(seconds)),
            *final(self) == *final(r),
    {
        self.add_u32(pfcp_ie::TIME_THRESHOLD, seconds)
    }

    /// Appends a Time Quota IE (seconds).
    pub fn add_time_quota(&mut self, seconds: u32) -> (r: &mut Self)
        requires
            old(self)@.len() + 8 <= isize::MAX,
        ensures
            r@ == old(self)@ + tlv(pfcp_ie::TIME_QUOTA, be32(seconds)),
            *final(self) == *final(r),
    {
        self.add_u32(pfcp_ie::TIME_QUOTA, seconds)
    }

    /// Appends a Quota Validity Time IE (seconds).
    pub fn add_quota_validity_time(&mut self, seconds: u32) -> (r: &mut Self)
        requires
            old(self)@.len() + 8 <= isize::MAX,
        ensures
            r@ == old(self)@ + tlv(pfcp_ie::QUOTA_VALIDITY_TIME, be32(seconds)),
            *final(self) == *final(r),
    {
        self.add_u32(pfcp_ie::QUOTA_VALIDITY_TIME, seconds)
    }

    /// Appends an SDF Filter IE.
    #[verifier::rlimit(60)]
    pub fn add_sdf_filter(
        &mut self,
        flow_description: Option<&str>,
        tos_traffic_class: Option<u16>,
        security_param_index: Option<u32>,
        flow_label: Option<u32>,
        sdf_filter_id: Option<u32>,
    ) -> (r: &mut Self)
        requires
            old(self)@.len() + 4 + sdf_filter_value(
                opt_str_bytes(flow_description),
                tos_traffic_class,
                security_param_index,
                flow_label,
                sdf_filter_id,
            ).len() <= isize::MAX,
        ensures
            r@ == old(self)@ + tlv(
                pfcp_ie::SDF_FILTER,
                sdf_filter_value(
                    opt_str_bytes(flow_description),
                    tos_traffic_class,
                    security_param_index,
                    flow_label,
                    sdf_filter_id,
                ),
            ),
            *final(self) == *final(r),
    {
        let ghost total = sdf_filter_value(
            opt_str_bytes(flow_description),
            tos_traffic_class,
            security_param_index,
            flow_label,
            sdf_filter_id,
        );
        let mut value = bm_new();
        let mut flags: u8 = 0;
        if flow_description.is_some() {
            flags = flags + 0x01;  // FD
        }
        if tos_traffic_class.is_some() {
            flags = flags + 0x02;  // TTC
        }
        if security_param_index.is_some() {
            flags = flags + 0x04;  // SPI
        }
        if flow_label.is_some() {
            flags = flags + 0x08;  // FL
        }
        if sdf_filter_id.is_some() {
            flags = flags + 0x10;  // BID
        }
        bm_put_u8(&mut value, flags);
        bm_put_u8(&mut value, 0);  // spare
        let ghost head = bytes_mut_contents(value);
        let ghost fd_part = match opt_str_bytes(flow_description) {
            Some(fd) => be16((fd.len() % 0x1_0000) as u16) + fd,
            None => Seq::<u8>::empty(),
        };
        if let Some(fd) = flow_description {
            let fd_bytes = fd.as_bytes();
            bm_put_u16(&mut value, (fd_bytes.len() % 0x1_0000) as u16);
            bm_put_slice(&mut value, fd_bytes);
        }
        assert(bytes_mut_contents(value) =~= head + fd_part);
        put_opt_be16(&mut value, tos_traffic_class);
        put_opt_be32(&mut value, security_param_index);
        put_opt_be24(&mut value, flow_label);  // the flow label is three octets
        put_opt_be32(&mut value, sdf_filter_id);
        assert(bytes_mut_contents(value) =~= total);
        self.add_tlv(pfcp_ie::SDF_FILTER, bm_as_slice(&value))
    }
}

/// Writes a big-endian 16-bit value when present.
fn put_opt_be16(value: &mut BytesMut, v: Option<u16>)
    requires
        bytes_mut_contents(*old(value)).len() + 2 <= isize::MAX,
    ensures
        bytes_mut_contents(*final(value)) == bytes_mut_contents(*old(value)) + opt_be16(v),
{
    if let Some(x) = v {
        bm_put_u16(value, x);
    } else {
        assert(bytes_mut_contents(*value) =~= bytes_mut_contents(*value) + opt_be16(v));
    }
}

/// Writes a big-endian 32-bit value when present.
fn put_opt_be32(value: &mut BytesMut, v: Option<u32>)
    requires
        bytes_mut_contents(*old(value)).len() + 4 <= isize::MAX,
    ensures
        bytes_mut_contents(*final(value)) == bytes_mut_contents(*old(value)) + opt_be32(v),
{
    if let Some(x) = v {
        bm_put_u32(value, x);
    } else {
        assert(bytes_mut_contents(*value) =~= bytes_mut_contents(*value) + opt_be32(v));
    }
}

/// Writes the low three octets of a value, big-endian, when present.
fn put_opt_be24(value: &mut BytesMut, v: Option<u32>)
    requires
        bytes_mut_contents(*old(value)).len() + 3 <= isize::MAX,
    ensures
        bytes_mut_contents(*final(value)) == bytes_mut_contents(*old(value)) + opt_be24(v),
{
    let ghost start = bytes_mut_contents(*value);
    if let Some(x) = v {
        bm_put_u8(value, (x / 0x1_0000 % 0x100) as u8);
        bm_put_u8(value, (x / 0x100 % 0x100) as u8);
        bm_put_u8(value, (x % 0x100) as u8);
    }
    assert(bytes_mut_contents(*value) =~= start + opt_be24(v));
}

/// The UTF-8 bytes of an optional string.
pub open spec fn opt_str_bytes(s: Option<&str>) -> Option<Seq<u8>> {
    match s {
        Some(x) => Some(str_bytes(x)),
        None => None,
    }
}

/// DNS label form is one octet longer than the name.
pub proof fn lemma_dns_labels_len(s: Seq<u8>)
    ensures
        dns_labels(s).len() == s.len() + 1,
    decreases s.len(),
{
    let p = crate::ie::first_dot(s) as int;
    if p < s.len() {
        lemma_dns_labels_len(s.subrange(p + 1, s.len() as int));
    }
}


// ============================================================================
// Grouped IEs of the session rules
// ============================================================================

/// The UTF-8 bytes of a string.
pub open spec fn string_bytes(s: String) -> Seq<u8> {
    encode_utf8(s@)
}

/// An IE carrying a string's bytes, when the string is present.
pub open spec fn opt_string_tlv(ie_type: u16, s: Option<String>) -> Seq<u8> {
    match s {
        Some(x) => tlv(ie_type, string_bytes(x)),
        None => Seq::empty(),
    }
}

/// An IE with a one-octet value, when present.
pub open spec fn opt_u8_tlv(ie_type: u16, v: Option<u8>) -> Seq<u8> {
    match v {
        Some(x) => tlv(ie_type, seq![x]),
        None => Seq::empty(),
    }
}

/// An IE with a 32-bit value, when present.
pub open spec fn opt_u32_tlv(ie_type: u16, v: Option<u32>) -> Seq<u8> {
    match v {
        Some(x) => tlv(ie_type, be32(x)),
        None => Seq::empty(),
    }
}

/// PDR (Packet Detection Rule) parameters.
#[derive(Debug, Clone, Default)]
pub struct PdrParams {
    pub pdr_id: u16,
    pub precedence: u32,
    pub source_interface: u8,
    pub far_id: Option<u32>,
    pub urr_ids: Vec<u32>,
    pub qer_id: Option<u32>,
    pub outer_header_removal: Option<u8>,
    pub f_teid: Option<(u32, Option<[u8; 4]>, Option<[u8; 16]>)>,
    pub ue_ip_address: Option<(Option<[u8; 4]>, Option<[u8; 16]>, bool)>,
    pub sdf_filters: Vec<String>,
    pub qfi: Option<u8>,
    pub network_instance: Option<String>,
}

/// An SDF Filter IE carrying only a flow description.
pub open spec fn sdf_flow_tlv(flow: String) -> Seq<u8> {
    tlv(pfcp_ie::SDF_FILTER, sdf_filter_value(Some(string_bytes(flow)), None, None, None, None))
}

/// A URR ID IE.
pub open spec fn urr_id_tlv(id: u32) -> Seq<u8> {
    tlv(pfcp_ie::URR_ID, be32(id))
}

/// The PDI of a Create PDR: source interface, the local F-TEID, the UE IP
/// address (a source address when its flag says so, else a destination),
/// the SDF filters, the QFI and the network instance.
#[verifier::opaque]
pub open spec fn pdi_value(p: PdrParams) -> Seq<u8> {
    tlv(pfcp_ie::SOURCE_INTERFACE, seq![p.source_interface]) + match p.f_teid {
        Some((teid, v4, v6)) => tlv(pfcp_ie::F_TEID, f_teid_value(teid, v4, v6, None)),
        None => Seq::empty(),
    } + match p.ue_ip_address {
        Some((v4, v6, source)) => tlv(pfcp_ie::UE_IP_ADDRESS, ue_ip_value(v4, v6, !source)),
        None => Seq::empty(),
    } + concat_map(p.sdf_filters@, |f: String| sdf_flow_tlv(f)) + opt_u8_tlv(pfcp_ie::QFI, p.qfi)
        + opt_string_tlv(pfcp_ie::NETWORK_INSTANCE, p.network_instance)
}

/// The value of a Create PDR IE (TS 29.244 7.5.2.2).
pub open spec fn create_pdr_value(p: PdrParams) -> Seq<u8> {
    tlv(pfcp_ie::PDR_ID, be16(p.pdr_id)) + tlv(pfcp_ie::PRECEDENCE, be32(p.precedence)) + tlv(
        pfcp_ie::PDI,
        pdi_value(p),
    ) + opt_u8_tlv(pfcp_ie::OUTER_HEADER_REMOVAL, p.outer_header_removal) + opt_u32_tlv(
        pfcp_ie::FAR_ID,
        p.far_id,
    ) + concat_map(p.urr_ids@, |id: u32| urr_id_tlv(id)) + opt_u32_tlv(pfcp_ie::QER_ID, p.qer_id)
}

/// Builds the PDI grouped IE value.
fn build_pdi(params: &PdrParams) -> (v: Vec<u8>)
    requires
        pdi_value(*params).len() <= isize::MAX,
    ensures
        v@ == pdi_value(*params),
{
    reveal(pdi_value);
    let ghost total = pdi_value(*params);
    let ghost sdfs = concat_map(params.sdf_filters@, |f: String| sdf_flow_tlv(f));
    let mut b = PfcpMessageBuilder::new();
    b.add_source_interface(params.source_interface);
    if let Some((teid, ipv4, ipv6)) = params.f_teid {
        b.add_f_teid(teid, ipv4, ipv6, None);
    }
    if let Some((ipv4, ipv6, source)) = params.ue_ip_address {
        b.add_ue_ip_address(ipv4, ipv6, source, !source);
    }
    let ghost head = b@;
    let n = params.sdf_filters.len();
    let mut i: usize = 0;
    while i < n
        invariant
            n == params.sdf_filters@.len(),
            i <= n,
            total == pdi_value(*params),
            sdfs == concat_map(params.sdf_filters@, |f: String| sdf_flow_tlv(f)),
            total.len() <= isize::MAX,
            b@ == head + concat_map(params.sdf_filters@.take(i as int), |f: String| sdf_flow_tlv(f)),
            head.len() + sdfs.len() <= total.len(),
        decreases n - i,
    {
        proof {
            lemma_concat_map_step(params.sdf_filters@, |f: String| sdf_flow_tlv(f), i as int);
            lemma_concat_map_elem_len(params.sdf_filters@, |f: String| sdf_flow_tlv(f), i as int);
        }
        b.add_sdf_filter(Some(params.sdf_filters[i].as_str()), None, None, None, None);
        i = i + 1;
    }
    assert(params.sdf_filters@.take(n as int) =~= params.sdf_filters@);
    if let Some(qfi) = params.qfi {
        b.add_qfi(qfi);
    }
    if let Some(ref ni) = params.network_instance {
        b.add_tlv(pfcp_ie::NETWORK_INSTANCE, ni.as_str().as_bytes());
    }
    assert(b@ =~= total);
    b.build()
}

/// Builds a Create PDR IE value.
#[verifier::spinoff_prover]
pub fn build_create_pdr(params: &PdrParams) -> (v: Vec<u8>)
    requires
        create_pdr_value(*params).len() <= isize::MAX,
    ensures
        v@ == create_pdr_value(*params),
{
    let ghost total = create_pdr_value(*params);
    let ghost p_head = tlv(pfcp_ie::PDR_ID, be16(params.pdr_id)) + tlv(pfcp_ie::PRECEDENCE, be32(params.precedence))
        + tlv(pfcp_ie::PDI, pdi_value(*params)) + opt_u8_tlv(pfcp_ie::OUTER_HEADER_REMOVAL, params.outer_header_removal)
        + opt_u32_tlv(pfcp_ie::FAR_ID, params.far_id);
    let ghost urrs = concat_map(params.urr_ids@, |id: u32| urr_id_tlv(id));
    let ghost p_qer = opt_u32_tlv(pfcp_ie::QER_ID, params.qer_id);
    assert(total == p_head + urrs + p_qer);
    assert(total.len() == p_head.len() + urrs.len() + p_qer.len());
    let mut b = PfcpMessageBuilder::new();
    b.add_pdr_id(params.pdr_id);
    b.add_precedence(params.precedence);
    let pdi = build_pdi(params);
    b.add_tlv(pfcp_ie::PDI, pdi.as_slice());
    if let Some(ohr) = params.outer_header_removal {
        b.add_outer_header_removal(ohr);
    }
    if let Some(far_id) = params.far_id {
        b.add_far_id(far_id);
    }
    assert(b@ =~= p_head);
    let ghost head = b@;
    let n = params.urr_ids.len();
    let mut i: usize = 0;
    while i < n
        invariant
            n == params.urr_ids@.len(),
            i <= n,
            urrs == concat_map(params.urr_ids@, |id: u32| urr_id_tlv(id)),
            head.len() + urrs.len() + p_qer.len() <= isize::MAX,
            b@ == head + concat_map(params.urr_ids@.take(i as int), |id: u32| urr_id_tlv(id)),
        decreases n - i,
    {
        proof {
            lemma_concat_map_step(params.urr_ids@, |id: u32| urr_id_tlv(id), i as int);
            lemma_concat_map_elem_len(params.urr_ids@, |id: u32| urr_id_tlv(id), i as int);
        }
        b.add_urr_id(params.urr_ids[i]);
        i = i + 1;
    }
    assert(params.urr_ids@.take(n as int) =~= params.urr_ids@);
    if let Some(qer_id) = params.qer_id {
        b.add_qer_id(qer_id);
    }
    assert(b@ =~= total);
    b.build()
}

/// The value of an Update PDR IE: the PDR ID and, when given, the outer
/// header removal.
pub open spec fn update_pdr_value(pdr_id: u16, outer_header_removal: Option<u8>) -> Seq<u8> {
    tlv(pfcp_ie::PDR_ID, be16(pdr_id)) + opt_u8_tlv(pfcp_ie::OUTER_HEADER_REMOVAL, outer_header_removal)
}

/// Builds an Update PDR IE value.
pub fn build_update_pdr(pdr_id: u16, outer_header_removal: Option<u8>) -> (v: Vec<u8>)
    ensures
        v@ == update_pdr_value(pdr_id, outer_header_removal),
{
    let mut b = PfcpMessageBuilder::new();
    b.add_pdr_id(pdr_id);
    if let Some(ohr) = outer_header_removal {
        b.add_outer_header_removal(ohr);
    }
    assert(b@ =~= update_pdr_value(pdr_id, outer_header_removal));
    b.build()
}

/// Builds a Remove PDR IE value: the PDR ID.
pub fn build_remove_pdr(pdr_id: u16) -> (v: Vec<u8>)
    ensures
        v@ == tlv(pfcp_ie::PDR_ID, be16(pdr_id)),
{
    let mut b = PfcpMessageBuilder::new();
    b.add_pdr_id(pdr_id);
    assert(b@ =~= tlv(pfcp_ie::PDR_ID, be16(pdr_id)));
    b.build()
}

/// FAR (Forwarding Action Rule) parameters.
#[derive(Debug, Clone, Default)]
pub struct FarParams {
    pub far_id: u32,
    pub apply_action: u16,
    pub destination_interface: Option<u8>,
    pub outer_header_creation: Option<(u16, u32, Option<[u8; 4]>, Option<[u8; 16]>)>,
    pub network_instance: Option<String>,
}

/// An Outer Header Creation IE, when one is given.
pub open spec fn opt_ohc_tlv(ohc: Option<(u16, u32, Option<[u8; 4]>, Option<[u8; 16]>)>) -> Seq<u8> {
    match ohc {
        Some((desc, teid, v4, v6)) => tlv(pfcp_ie::OUTER_HEADER_CREATION, ohc_value(desc, teid, v4, v6)),
        None => Seq::empty(),
    }
}

/// The Forwarding Parameters of a Create FAR: destination interface,
/// network instance and outer header creation, each when given.
pub open spec fn forwarding_parameters_value(p: FarParams) -> Seq<u8> {
    opt_u8_tlv(pfcp_ie::DESTINATION_INTERFACE, p.destination_interface) + opt_string_tlv(
        pfcp_ie::NETWORK_INSTANCE,
        p.network_instance,
    ) + opt_ohc_tlv(p.outer_header_creation)
}

/// The value of a Create FAR IE (TS 29.244 7.5.2.3): FAR ID, Apply Action,
/// and the Forwarding Parameters only when the action forwards.
pub open spec fn create_far_value(p: FarParams) -> Seq<u8> {
    tlv(pfcp_ie::FAR_ID, be32(p.far_id)) + tlv(pfcp_ie::APPLY_ACTION, be16(p.apply_action)) + if p.apply_action
        & apply_action::FORW != 0 {
        tlv(pfcp_ie::FORWARDING_PARAMETERS, forwarding_parameters_value(p))
    } else {
        Seq::empty()
    }
}

/// Builds a Create FAR IE value.
pub fn build_create_far(params: &FarParams) -> (v: Vec<u8>)
    requires
        create_far_value(*params).len() <= isize::MAX,
    ensures
        v@ == create_far_value(*params),
{
    let mut b = PfcpMessageBuilder::new();
    b.add_far_id(params.far_id);
    b.add_apply_action(params.apply_action);
    if params.apply_action & apply_action::FORW != 0 {
        let mut fp = PfcpMessageBuilder::new();
        if let Some(dst_if) = params.destination_interface {
            fp.add_destination_interface(dst_if);
        }
        if let Some(ref ni) = params.network_instance {
            fp.add_tlv(pfcp_ie::NETWORK_INSTANCE, ni.as_str().as_bytes());
        }
        assert(fp@ =~= opt_u8_tlv(pfcp_ie::DESTINATION_INTERFACE, params.destination_interface)
            + opt_string_tlv(pfcp_ie::NETWORK_INSTANCE, params.network_instance));
        if let Some((desc, teid, ipv4, ipv6)) = params.outer_header_creation {
            fp.add_outer_header_creation(desc, teid, ipv4, ipv6);
        }
        assert(fp@ =~= forwarding_parameters_value(*params));
        let fp_bytes = fp.build();
        b.add_tlv(pfcp_ie::FORWARDING_PARAMETERS, fp_bytes.as_slice());
    }
    assert(b@ =~= create_far_value(*params));
    b.build()
}

/// The value of an Update FAR IE that activates forwarding: FAR ID, Apply
/// Action FORW, and Update Forwarding Parameters with the destination
/// interface and the outer header creation when given. The End Marker
/// request is not part of it: it is a message-level flag.
pub open spec fn update_far_activate_value(
    far_id: u32,
    destination_interface: u8,
    outer_header_creation: Option<(u16, u32, Option<[u8; 4]>, Option<[u8; 16]>)>,
) -> Seq<u8> {
    tlv(pfcp_ie::FAR_ID, be32(far_id)) + tlv(pfcp_ie::APPLY_ACTION, be16(apply_action::FORW)) + tlv(
        pfcp_ie::UPDATE_FORWARDING_PARAMETERS,
        tlv(pfcp_ie::DESTINATION_INTERFACE, seq![destination_interface]) + opt_ohc_tlv(outer_header_creation),
    )
}

/// Builds an Update FAR IE value that activates forwarding.
pub fn build_update_far_activate(
    far_id: u32,
    destination_interface: u8,
    outer_header_creation: Option<(u16, u32, Option<[u8; 4]>, Option<[u8; 16]>)>,
    send_end_marker: bool,
) -> (v: Vec<u8>)
    ensures
        v@ == update_far_activate_value(far_id, destination_interface, outer_header_creation),
{
    let mut b = PfcpMessageBuilder::new();
    b.add_far_id(far_id);
    b.add_apply_action(apply_action::FORW);
    let mut ufp = PfcpMessageBuilder::new();
    ufp.add_destination_interface(destination_interface);
    if let Some((desc, teid, ipv4, ipv6)) = outer_header_creation {
        ufp.add_outer_header_creation(desc, teid, ipv4, ipv6);
    }
    // The End Marker request (SNDEM) is a message-level PFCPSMReq-Flags IE,
    // added by build_session_modification_request.
    let _ = send_end_marker;
    let ufp_bytes = ufp.build();
    b.add_tlv(pfcp_ie::UPDATE_FORWARDING_PARAMETERS, ufp_bytes.as_slice());
    assert(b@ =~= update_far_activate_value(far_id, destination_interface, outer_header_creation));
    b.build()
}

/// The value of an Update FAR IE that stops forwarding: FAR ID and Apply
/// Action BUFF | NOCP.
pub open spec fn update_far_deactivate_value(far_id: u32) -> Seq<u8> {
    tlv(pfcp_ie::FAR_ID, be32(far_id)) + tlv(pfcp_ie::APPLY_ACTION, be16((apply_action::BUFF + apply_action::NOCP) as u16))
}

/// Builds an Update FAR IE value that buffers and notifies the CP function.
pub fn build_update_far_deactivate(far_id: u32) -> (v: Vec<u8>)
    ensures
        v@ == update_far_deactivate_value(far_id),
{
    let mut b = PfcpMessageBuilder::new();
    b.add_far_id(far_id);
    b.add_apply_action(apply_action::BUFF + apply_action::NOCP);
    assert(b@ =~= update_far_deactivate_value(far_id));
    b.build()
}

/// Builds a Remove FAR IE value: the FAR ID.
pub fn build_remove_far(far_id: u32) -> (v: Vec<u8>)
    ensures
        v@ == tlv(pfcp_ie::FAR_ID, be32(far_id)),
{
    let mut b = PfcpMessageBuilder::new();
    b.add_far_id(far_id);
    assert(b@ =~= tlv(pfcp_ie::FAR_ID, be32(far_id)));
    b.build()
}

/// URR (Usage Reporting Rule) parameters.
#[derive(Debug, Clone, Copy)]
pub struct UrrParams {
    pub urr_id: u32,
    /// (duration, volume, event)
    pub measurement_method: (bool, bool, bool),
    pub reporting_triggers: u32,
    pub measurement_period: Option<u32>,
    /// (total, uplink, downlink)
    pub volume_threshold: Option<(Option<u64>, Option<u64>, Option<u64>)>,
    /// (total, uplink, downlink)
    pub volume_quota: Option<(Option<u64>, Option<u64>, Option<u64>)>,
    pub time_threshold: Option<u32>,
    pub time_quota: Option<u32>,
    pub quota_validity_time: Option<u32>,
}

impl Default for UrrParams {
    fn default() -> (p: Self)
        ensures
            p.urr_id == 0,
            p.measurement_method == (false, false, false),
            p.reporting_triggers == 0,
            p.measurement_period is None,
            p.volume_threshold is None,
            p.volume_quota is None,
            p.time_threshold is None,
            p.time_quota is None,
            p.quota_validity_time is None,
    {
        UrrParams {
            urr_id: 0,
            measurement_method: (false, false, false),
            reporting_triggers: 0,
            measurement_period: None,
            volume_threshold: None,
            volume_quota: None,
            time_threshold: None,
            time_quota: None,
            quota_validity_time: None,
        }
    }
}

/// A volume IE, when given.
pub open spec fn opt_volume_tlv(ie_type: u16, v: Option<(Option<u64>, Option<u64>, Option<u64>)>) -> Seq<u8> {
    match v {
        Some((t, u, d)) => tlv(ie_type, volume_value(t, u, d)),
        None => Seq::empty(),
    }
}

/// The value of a Create URR IE (TS 29.244 7.5.2.4).
pub open spec fn create_urr_value(p: UrrParams) -> Seq<u8> {
    tlv(pfcp_ie::URR_ID, be32(p.urr_id)) + tlv(
        pfcp_ie::MEASUREMENT_METHOD,
        seq![measurement_method_octet(p.measurement_method.0, p.measurement_method.1, p.measurement_method.2)],
    ) + tlv(pfcp_ie::REPORTING_TRIGGERS, be24(p.reporting_triggers)) + opt_u32_tlv(
        pfcp_ie::MEASUREMENT_PERIOD,
        p.measurement_period,
    ) + opt_volume_tlv(pfcp_ie::VOLUME_THRESHOLD, p.volume_threshold) + opt_volume_tlv(
        pfcp_ie::VOLUME_QUOTA,
        p.volume_quota,
    ) + opt_u32_tlv(pfcp_ie::TIME_THRESHOLD, p.time_threshold) + opt_u32_tlv(
        pfcp_ie::TIME_QUOTA,
        p.time_quota,
    ) + opt_u32_tlv(pfcp_ie::QUOTA_VALIDITY_TIME, p.quota_validity_time)
}

/// Builds a Create URR IE value.
pub fn build_create_urr(params: &UrrParams) -> (v: Vec<u8>)
    ensures
        v@ == create_urr_value(*params),
{
    let p = *params;
    let mut b = PfcpMessageBuilder::new();
    b.add_urr_id(p.urr_id);
    let (duration, volume, event) = p.measurement_method;
    b.add_measurement_method(duration, volume, event);
    b.add_reporting_triggers(p.reporting_triggers);
    b.add_u32_when(true, pfcp_ie::MEASUREMENT_PERIOD, p.measurement_period);
    b.add_volume_when(true, pfcp_ie::VOLUME_THRESHOLD, p.volume_threshold);
    b.add_volume_when(true, pfcp_ie::VOLUME_QUOTA, p.volume_quota);
    b.add_u32_when(true, pfcp_ie::TIME_THRESHOLD, p.time_threshold);
    b.add_u32_when(true, pfcp_ie::TIME_QUOTA, p.time_quota);
    b.add_u32_when(true, pfcp_ie::QUOTA_VALIDITY_TIME, p.quota_validity_time);
    assert(b@ =~= create_urr_value(*params));
    b.build()
}

/// `bytes` when `on`, nothing otherwise.
pub open spec fn when(on: bool, bytes: Seq<u8>) -> Seq<u8> {
    if on {
        bytes
    } else {
        Seq::empty()
    }
}

/// The value of an Update URR IE: the URR ID, then each part that
/// `modify_flags` selects and the parameters give.
pub open spec fn update_urr_value(p: UrrParams, flags: u64) -> Seq<u8> {
    tlv(pfcp_ie::URR_ID, be32(p.urr_id)) + when(
        flags & modify_flags::URR_MEAS_METHOD != 0,
        tlv(
            pfcp_ie::MEASUREMENT_METHOD,
            seq![measurement_method_octet(p.measurement_method.0, p.measurement_method.1, p.measurement_method.2)],
        ),
    ) + when(
        flags & modify_flags::URR_REPORT_TRIGGER != 0,
        tlv(pfcp_ie::REPORTING_TRIGGERS, be24(p.reporting_triggers)),
    ) + when(
        flags & modify_flags::URR_VOLUME_THRESH != 0,
        opt_volume_tlv(pfcp_ie::VOLUME_THRESHOLD, p.volume_threshold),
    ) + when(
        flags & modify_flags::URR_VOLUME_QUOTA != 0,
        opt_volume_tlv(pfcp_ie::VOLUME_QUOTA, p.volume_quota),
    ) + when(
        flags & modify_flags::URR_TIME_THRESH != 0,
        opt_u32_tlv(pfcp_ie::TIME_THRESHOLD, p.time_threshold),
    ) + when(flags & modify_flags::URR_TIME_QUOTA != 0, opt_u32_tlv(pfcp_ie::TIME_QUOTA, p.time_quota))
        + when(
        flags & modify_flags::URR_QUOTA_VALIDITY_TIME != 0,
        opt_u32_tlv(pfcp_ie::QUOTA_VALIDITY_TIME, p.quota_validity_time),
    )
}

/// Builds an Update URR IE value.
pub fn build_update_urr(params: &UrrParams, modify_flags: u64) -> (v: Vec<u8>)
    ensures
        v@ == update_urr_value(*params, modify_flags),
{
    let p = *params;
    let mut b = PfcpMessageBuilder::new();
    b.add_urr_id(p.urr_id);
    if modify_flags & modify_flags::URR_MEAS_METHOD != 0 {
        let (duration, volume, event) = p.measurement_method;
        b.add_measurement_method(duration, volume, event);
    }
    if modify_flags & modify_flags::URR_REPORT_TRIGGER != 0 {
        b.add_reporting_triggers(p.reporting_triggers);
    }
    let ghost head = b@;
    assert(head.len() <= 20);
    b.add_volume_when(modify_flags & modify_flags::URR_VOLUME_THRESH != 0, pfcp_ie::VOLUME_THRESHOLD, p.volume_threshold);
    b.add_volume_when(modify_flags & modify_flags::URR_VOLUME_QUOTA != 0, pfcp_ie::VOLUME_QUOTA, p.volume_quota);
    b.add_u32_when(modify_flags & modify_flags::URR_TIME_THRESH != 0, pfcp_ie::TIME_THRESHOLD, p.time_threshold);
    b.add_u32_when(modify_flags & modify_flags::URR_TIME_QUOTA != 0, pfcp_ie::TIME_QUOTA, p.time_quota);
    b.add_u32_when(
        modify_flags & modify_flags::URR_QUOTA_VALIDITY_TIME != 0,
        pfcp_ie::QUOTA_VALIDITY_TIME,
        p.quota_validity_time,
    );
    assert(b@ =~= update_urr_value(*params, modify_flags));
    b.build()
}

/// Builds a Remove URR IE value: the URR ID.
pub fn build_remove_urr(urr_id: u32) -> (v: Vec<u8>)
    ensures
        v@ == tlv(pfcp_ie::URR_ID, be32(urr_id)),
{
    let mut b = PfcpMessageBuilder::new();
    b.add_urr_id(urr_id);
    assert(b@ =~= tlv(pfcp_ie::URR_ID, be32(urr_id)));
    b.build()
}

/// QER (QoS Enforcement Rule) parameters.
#[derive(Debug, Clone, Copy)]
pub struct QerParams {
    pub qer_id: u32,
    /// (dl_gate, ul_gate)
    pub gate_status: (u8, u8),
    /// (uplink, downlink), in bit/s
    pub mbr: Option<(u64, u64)>,
    /// (uplink, downlink), in bit/s
    pub gbr: Option<(u64, u64)>,
    pub qfi: Option<u8>,
}

impl Default for QerParams {
    fn default() -> (p: Self)
        ensures
            p.qer_id == 0,
            p.gate_status == (0u8, 0u8),
            p.mbr is None,
            p.gbr is None,
            p.qfi is None,
    {
        QerParams { qer_id: 0, gate_status: (0, 0), mbr: None, gbr: None, qfi: None }
    }
}

/// A bit-rate IE, when given.
pub open spec fn opt_bitrate_tlv(ie_type: u16, v: Option<(u64, u64)>) -> Seq<u8> {
    match v {
        Some((u, d)) => tlv(ie_type, bitrate_value(u, d)),
        None => Seq::empty(),
    }
}

/// The value of a Create QER IE (TS 29.244 7.5.2.5).
pub open spec fn create_qer_value(p: QerParams) -> Seq<u8> {
    tlv(pfcp_ie::QER_ID, be32(p.qer_id)) + tlv(
        pfcp_ie::GATE_STATUS,
        seq![gate_status_octet(p.gate_status.0, p.gate_status.1)],
    ) + opt_bitrate_tlv(pfcp_ie::MBR, p.mbr) + opt_bitrate_tlv(pfcp_ie::GBR, p.gbr) + opt_u8_tlv(
        pfcp_ie::QFI,
        p.qfi,
    )
}

/// Builds a Create QER IE value.
pub fn build_create_qer(params: &QerParams) -> (v: Vec<u8>)
    ensures
        v@ == create_qer_value(*params),
{
    let mut b = PfcpMessageBuilder::new();
    b.add_qer_id(params.qer_id);
    let (dl_gate, ul_gate) = params.gate_status;
    b.add_gate_status(dl_gate, ul_gate);
    if let Some((uplink, downlink)) = params.mbr {
        b.add_mbr(uplink, downlink);
    }
    if let Some((uplink, downlink)) = params.gbr {
        b.add_gbr(uplink, downlink);
    }
    if let Some(qfi) = params.qfi {
        b.add_qfi(qfi);
    }
    assert(b@ =~= create_qer_value(*params));
    b.build()
}

/// Builds an Update QER IE value: the same IEs as a Create QER.
pub fn build_update_qer(params: &QerParams) -> (v: Vec<u8>)
    ensures
        v@ == create_qer_value(*params),
{
    build_create_qer(params)
}

/// Builds a Remove QER IE value: the QER ID.
pub fn build_remove_qer(qer_id: u32) -> (v: Vec<u8>)
    ensures
        v@ == tlv(pfcp_ie::QER_ID, be32(qer_id)),
{
    let mut b = PfcpMessageBuilder::new();
    b.add_qer_id(qer_id);
    assert(b@ =~= tlv(pfcp_ie::QER_ID, be32(qer_id)));
    b.build()
}

/// BAR (Buffering Action Rule) parameters.
#[derive(Debug, Clone, Default)]
pub struct BarParams {
    pub bar_id: u8,
    pub downlink_data_notification_delay: Option<u8>,
    pub suggested_buffering_packets_count: Option<u8>,
}

/// The value of a Create BAR IE (TS 29.244 7.5.2.6).
pub open spec fn create_bar_value(p: BarParams) -> Seq<u8> {
    tlv(pfcp_ie::BAR_ID, seq![p.bar_id]) + opt_u8_tlv(
        pfcp_ie::DOWNLINK_DATA_NOTIFICATION_DELAY,
        p.downlink_data_notification_delay,
    ) + opt_u8_tlv(pfcp_ie::SUGGESTED_BUFFERING_PACKETS_COUNT, p.suggested_buffering_packets_count)
}

/// Builds a Create BAR IE value.
pub fn build_create_bar(params: &BarParams) -> (v: Vec<u8>)
    ensures
        v@ == create_bar_value(*params),
{
    let mut b = PfcpMessageBuilder::new();
    b.add_bar_id(params.bar_id);
    if let Some(delay) = params.downlink_data_notification_delay {
        b.add_u8(pfcp_ie::DOWNLINK_DATA_NOTIFICATION_DELAY, delay);
    }
    if let Some(count) = params.suggested_buffering_packets_count {
        b.add_u8(pfcp_ie::SUGGESTED_BUFFERING_PACKETS_COUNT, count);
    }
    assert(b@ =~= create_bar_value(*params));
    b.build()
}

} // verus!
