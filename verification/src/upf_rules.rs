//! The session rules that the UPF reads out of SMF requests (TS 29.244
//! 7.5.2): Create PDR with its PDI, Create FAR with its Forwarding
//! Parameters, Create QER, Create URR and Create BAR, and two node-level
//! IEs. Each reads the first IE of a type; an absent or short optional IE
//! leaves its field at its default.

use vstd::prelude::*;
use crate::wire::{u16_at, u32_at, u64_at, read_u16, read_u32, read_u64, tlv, be32, lemma_u32_roundtrip};
use crate::upf_n4::{heartbeat_value, load_control_value};
use crate::pfcp::pfcp_ie;
use crate::text::{lossy_string, utf8_lossy};
use crate::upf_parse::{
    lemma_parse_tlv,
    IeView, parse_ies, first_of, all_of, has_bit, ParsedIe, ie_views, ParsedFTeid, ParsedUeIpAddr,
    ParsedOuterHeaderCreation, f_teid_error, f_teid_fields, ue_ip_error, ue_ip_fields, ohc_error, ohc_fields,
};

verus! {

/// The first octet of a value, or 0 when absent or empty.
pub open spec fn u8_field(v: Option<Seq<u8>>) -> u8 {
    match v {
        Some(x) if x.len() >= 1 => x[0],
        _ => 0,
    }
}

/// The first octet of a value, when present and not empty.
pub open spec fn opt_u8_field(v: Option<Seq<u8>>) -> Option<u8> {
    match v {
        Some(x) if x.len() >= 1 => Some(x[0]),
        _ => None,
    }
}

/// The leading 16-bit value, or 0 when absent or short.
pub open spec fn u16_field(v: Option<Seq<u8>>) -> u16 {
    match v {
        Some(x) if x.len() >= 2 => u16_at(x, 0),
        _ => 0,
    }
}

/// The leading 32-bit value, or 0 when absent or short.
pub open spec fn u32_field(v: Option<Seq<u8>>) -> u32 {
    match v {
        Some(x) if x.len() >= 4 => u32_at(x, 0),
        _ => 0,
    }
}

/// The leading 32-bit value, when present and long enough.
pub open spec fn opt_u32_field(v: Option<Seq<u8>>) -> Option<u32> {
    match v {
        Some(x) if x.len() >= 4 => Some(u32_at(x, 0)),
        _ => None,
    }
}

/// The leading 32-bit values of the values that are long enough, in order.
pub open spec fn u32_fields(vs: Seq<Seq<u8>>) -> Seq<u32>
    decreases vs.len(),
{
    if vs.len() == 0 {
        Seq::empty()
    } else {
        u32_fields(vs.drop_last()) + if vs.last().len() >= 4 {
            seq![u32_at(vs.last(), 0)]
        } else {
            Seq::empty()
        }
    }
}

/// Reads the first octet of an optional value.
fn read_opt_u8(ie: Option<&ParsedIe>) -> (r: Option<u8>)
    ensures
        r == opt_u8_field(match ie {
            Some(x) => Some(x.value@),
            None => None,
        }),
{
    match ie {
        Some(x) => {
            if x.value.len() >= 1 {
                Some(x.value[0])
            } else {
                None
            }
        },
        None => None,
    }
}

/// Reads the leading 32-bit value of an optional value.
fn read_opt_u32(ie: Option<&ParsedIe>) -> (r: Option<u32>)
    ensures
        r == opt_u32_field(match ie {
            Some(x) => Some(x.value@),
            None => None,
        }),
{
    match ie {
        Some(x) => {
            if x.value.len() >= 4 {
                Some(read_u32(x.value.as_slice(), 0))
            } else {
                None
            }
        },
        None => None,
    }
}

/// The view of an optional parsed IE's value.
pub open spec fn value_of(ie: Option<&ParsedIe>) -> Option<Seq<u8>> {
    match ie {
        Some(x) => Some(x.value@),
        None => None,
    }
}

/// Looks up the first IE of a type in a parsed payload.
fn lookup(ies: &Vec<ParsedIe>, ie_type: u16) -> (r: Option<&ParsedIe>)
    ensures
        value_of(r) == first_of(ie_views(ies@), ie_type),
{
    ParsedIe::find_ie(ies.as_slice(), ie_type)
}

// ----------------------------------------------------------------------------
// PDI
// ----------------------------------------------------------------------------

/// Parsed PDI (Packet Detection Information).
#[derive(Debug, Clone, Default)]
pub struct ParsedPdi {
    pub source_interface: u8,
    pub local_f_teid: Option<ParsedFTeid>,
    pub network_instance: Option<String>,
    pub ue_ip_address: Option<ParsedUeIpAddr>,
    pub qfi: Option<u8>,
    /// The flow description of the first SDF Filter IE (an IPFilterRule,
    /// TS 29.212)
    pub sdf_flow_description: Option<String>,
}

/// Text of a value, when present.
pub open spec fn text_matches(s: Option<String>, v: Option<Seq<u8>>) -> bool {
    match v {
        Some(x) => s matches Some(t) && t@ == utf8_lossy(x),
        None => s is None,
    }
}

/// The flow description octets of an SDF Filter value: flags, a spare
/// octet, a 16-bit length, then the description. It is read when the FD
/// flag (0x01) is set and the description fits.
pub open spec fn sdf_flow_octets(v: Option<Seq<u8>>) -> Option<Seq<u8>> {
    match v {
        Some(x) if x.len() >= 4 && has_bit(x[0], 0x01) && x.len() >= 4 + u16_at(x, 2) => Some(
            x.subrange(4, 4 + u16_at(x, 2)),
        ),
        _ => None,
    }
}

/// Why a PDI value cannot be read, if it cannot: a malformed F-TEID or UE
/// IP Address.
pub open spec fn pdi_error(d: Seq<u8>) -> Option<&'static str> {
    let ies = parse_ies(d);
    match first_of(ies, pfcp_ie::F_TEID) {
        Some(v) if f_teid_error(v) is Some => f_teid_error(v),
        _ => match first_of(ies, pfcp_ie::UE_IP_ADDRESS) {
            Some(v) if ue_ip_error(v) is Some => ue_ip_error(v),
            _ => None,
        },
    }
}

/// What a parsed PDI holds of the value it was read from.
pub open spec fn pdi_fields(p: ParsedPdi, d: Seq<u8>) -> bool {
    let ies = parse_ies(d);
    &&& p.source_interface == u8_field(first_of(ies, pfcp_ie::SOURCE_INTERFACE))
    &&& match first_of(ies, pfcp_ie::F_TEID) {
        Some(v) => p.local_f_teid matches Some(t) && f_teid_fields(t, v),
        None => p.local_f_teid is None,
    }
    &&& text_matches(p.network_instance, first_of(ies, pfcp_ie::NETWORK_INSTANCE))
    &&& match first_of(ies, pfcp_ie::UE_IP_ADDRESS) {
        Some(v) => p.ue_ip_address matches Some(u) && ue_ip_fields(u, v),
        None => p.ue_ip_address is None,
    }
    &&& p.qfi == opt_u8_field(first_of(ies, pfcp_ie::QFI))
    &&& text_matches(p.sdf_flow_description, sdf_flow_octets(first_of(ies, pfcp_ie::SDF_FILTER)))
}

/// Reads the text of an optional value.
fn read_text(ie: Option<&ParsedIe>) -> (r: Option<String>)
    ensures
        text_matches(r, value_of(ie)),
{
    match ie {
        Some(x) => Some(lossy_string(x.value.as_slice())),
        None => None,
    }
}

/// Parses a PDI grouped IE value.
pub fn parse_pdi(data: &[u8]) -> (r: Result<ParsedPdi, &'static str>)
    ensures
        r is Err <==> pdi_error(data@) is Some,
        r matches Err(e) ==> pdi_error(data@) == Some(e),
        r matches Ok(p) ==> pdi_fields(p, data@),
{
    let ies = ParsedIe::parse_all(data);
    let source_interface = match lookup(&ies, pfcp_ie::SOURCE_INTERFACE) {
        Some(ie) => {
            if ie.value.len() >= 1 {
                ie.value[0]
            } else {
                0
            }
        },
        None => 0,
    };
    let local_f_teid = match lookup(&ies, pfcp_ie::F_TEID) {
        Some(ie) => {
            match ParsedFTeid::parse(ie.value.as_slice()) {
                Ok(t) => Some(t),
                Err(e) => {
                    return Err(e);
                },
            }
        },
        None => None,
    };
    let network_instance = read_text(lookup(&ies, pfcp_ie::NETWORK_INSTANCE));
    let ue_ip_address = match lookup(&ies, pfcp_ie::UE_IP_ADDRESS) {
        Some(ie) => {
            match ParsedUeIpAddr::parse(ie.value.as_slice()) {
                Ok(u) => Some(u),
                Err(e) => {
                    return Err(e);
                },
            }
        },
        None => None,
    };
    let qfi = read_opt_u8(lookup(&ies, pfcp_ie::QFI));
    let sdf_flow_description = match lookup(&ies, pfcp_ie::SDF_FILTER) {
        Some(ie) => {
            let v = ie.value.as_slice();
            if v.len() >= 4 && (v[0] & 0x01) != 0 {
                let fd_len = read_u16(v, 2) as usize;
                if v.len() - 4 >= fd_len {
                    Some(lossy_string(&v[4..4 + fd_len]))
                } else {
                    None
                }
            } else {
                None
            }
        },
        None => None,
    };
    Ok(ParsedPdi { source_interface, local_f_teid, network_instance, ue_ip_address, qfi, sdf_flow_description })
}

// ----------------------------------------------------------------------------
// Create PDR
// ----------------------------------------------------------------------------

/// Parsed Create PDR.
#[derive(Debug, Clone, Default)]
pub struct ParsedCreatePdr {
    pub pdr_id: u16,
    pub precedence: u32,
    pub pdi: ParsedPdi,
    pub outer_header_removal: Option<u8>,
    pub far_id: Option<u32>,
    pub urr_ids: Vec<u32>,
    pub qer_id: Option<u32>,
}

/// Why a Create PDR value cannot be read, if it cannot: no PDR ID, or a
/// PDI that cannot be read.
pub open spec fn create_pdr_error(d: Seq<u8>) -> Option<&'static str> {
    let ies = parse_ies(d);
    if first_of(ies, pfcp_ie::PDR_ID) is None {
        Some("PDR ID missing")
    } else {
        match first_of(ies, pfcp_ie::PDI) {
            Some(v) => pdi_error(v),
            None => None,
        }
    }
}

/// A PDI with every field at its default.
pub open spec fn default_pdi(p: ParsedPdi) -> bool {
    &&& p.source_interface == 0
    &&& p.local_f_teid is None
    &&& p.network_instance is None
    &&& p.ue_ip_address is None
    &&& p.qfi is None
    &&& p.sdf_flow_description is None
}

/// What a parsed Create PDR holds of the value it was read from.
pub open spec fn create_pdr_fields(p: ParsedCreatePdr, d: Seq<u8>) -> bool {
    let ies = parse_ies(d);
    &&& p.pdr_id == u16_field(first_of(ies, pfcp_ie::PDR_ID))
    &&& p.precedence == u32_field(first_of(ies, pfcp_ie::PRECEDENCE))
    &&& match first_of(ies, pfcp_ie::PDI) {
        Some(v) => pdi_fields(p.pdi, v),
        None => default_pdi(p.pdi),
    }
    &&& p.outer_header_removal == opt_u8_field(first_of(ies, pfcp_ie::OUTER_HEADER_REMOVAL))
    &&& p.far_id == opt_u32_field(first_of(ies, pfcp_ie::FAR_ID))
    &&& p.urr_ids@ == u32_fields(all_of(ies, pfcp_ie::URR_ID))
    &&& p.qer_id == opt_u32_field(first_of(ies, pfcp_ie::QER_ID))
}

/// Reads the leading 32-bit value of each value that is long enough.
fn read_u32_all(ies: &Vec<ParsedIe>, ie_type: u16) -> (r: Vec<u32>)
    ensures
        r@ == u32_fields(all_of(ie_views(ies@), ie_type)),
{
    let found = ParsedIe::find_all_ies(ies.as_slice(), ie_type);
    let ghost vals = found@.map_values(|ie: &ParsedIe| ie.value@);
    let mut out: Vec<u32> = Vec::new();
    let n = found.len();
    let mut i: usize = 0;
    while i < n
        invariant
            n == found@.len(),
            i <= n,
            vals == found@.map_values(|ie: &ParsedIe| ie.value@),
            out@ == u32_fields(vals.take(i as int)),
        decreases n - i,
    {
        proof {
            assert(vals.take(i + 1).drop_last() =~= vals.take(i as int));
        }
        let v = found[i].value.as_slice();
        if v.len() >= 4 {
            out.push(read_u32(v, 0));
        }
        proof {
            assert(out@ =~= u32_fields(vals.take(i + 1)));
        }
        i = i + 1;
    }
    assert(vals.take(n as int) =~= vals);
    out
}

/// Parses a Create PDR grouped IE value.
pub fn parse_create_pdr(data: &[u8]) -> (r: Result<ParsedCreatePdr, &'static str>)
    ensures
        r is Err <==> create_pdr_error(data@) is Some,
        r matches Err(e) ==> create_pdr_error(data@) == Some(e),
        r matches Ok(p) ==> create_pdr_fields(p, data@),
{
    let ies = ParsedIe::parse_all(data);
    let pdr_id = match lookup(&ies, pfcp_ie::PDR_ID) {
        Some(ie) => {
            if ie.value.len() >= 2 {
                read_u16(ie.value.as_slice(), 0)
            } else {
                0
            }
        },
        None => {
            return Err("PDR ID missing");
        },
    };
    let precedence = match lookup(&ies, pfcp_ie::PRECEDENCE) {
        Some(ie) => {
            if ie.value.len() >= 4 {
                read_u32(ie.value.as_slice(), 0)
            } else {
                0
            }
        },
        None => 0,
    };
    let pdi = match lookup(&ies, pfcp_ie::PDI) {
        Some(ie) => {
            match parse_pdi(ie.value.as_slice()) {
                Ok(p) => p,
                Err(e) => {
                    return Err(e);
                },
            }
        },
        None => ParsedPdi {
            source_interface: 0,
            local_f_teid: None,
            network_instance: None,
            ue_ip_address: None,
            qfi: None,
            sdf_flow_description: None,
        },
    };
    let outer_header_removal = read_opt_u8(lookup(&ies, pfcp_ie::OUTER_HEADER_REMOVAL));
    let far_id = read_opt_u32(lookup(&ies, pfcp_ie::FAR_ID));
    let urr_ids = read_u32_all(&ies, pfcp_ie::URR_ID);
    let qer_id = read_opt_u32(lookup(&ies, pfcp_ie::QER_ID));
    Ok(ParsedCreatePdr { pdr_id, precedence, pdi, outer_header_removal, far_id, urr_ids, qer_id })
}

// ----------------------------------------------------------------------------
// Create FAR
// ----------------------------------------------------------------------------

/// Parsed Forwarding Parameters.
#[derive(Debug, Clone, Default)]
pub struct ParsedForwardingParameters {
    pub destination_interface: u8,
    pub network_instance: Option<String>,
    pub outer_header_creation: Option<ParsedOuterHeaderCreation>,
}

/// Why a Forwarding Parameters value cannot be read, if it cannot: a
/// malformed Outer Header Creation.
pub open spec fn fp_error(d: Seq<u8>) -> Option<&'static str> {
    match first_of(parse_ies(d), pfcp_ie::OUTER_HEADER_CREATION) {
        Some(v) => ohc_error(v),
        None => None,
    }
}

/// What parsed Forwarding Parameters hold of the value they were read from.
pub open spec fn fp_fields(p: ParsedForwardingParameters, d: Seq<u8>) -> bool {
    let ies = parse_ies(d);
    &&& p.destination_interface == u8_field(first_of(ies, pfcp_ie::DESTINATION_INTERFACE))
    &&& text_matches(p.network_instance, first_of(ies, pfcp_ie::NETWORK_INSTANCE))
    &&& match first_of(ies, pfcp_ie::OUTER_HEADER_CREATION) {
        Some(v) => p.outer_header_creation matches Some(o) && ohc_fields(o, v),
        None => p.outer_header_creation is None,
    }
}

/// Parses a Forwarding Parameters (or Update Forwarding Parameters) value.
pub fn parse_forwarding_parameters(data: &[u8]) -> (r: Result<ParsedForwardingParameters, &'static str>)
    ensures
        r is Err <==> fp_error(data@) is Some,
        r matches Err(e) ==> fp_error(data@) == Some(e),
        r matches Ok(p) ==> fp_fields(p, data@),
{
    let ies = ParsedIe::parse_all(data);
    let destination_interface = match lookup(&ies, pfcp_ie::DESTINATION_INTERFACE) {
        Some(ie) => {
            if ie.value.len() >= 1 {
                ie.value[0]
            } else {
                0
            }
        },
        None => 0,
    };
    let network_instance = read_text(lookup(&ies, pfcp_ie::NETWORK_INSTANCE));
    let outer_header_creation = match lookup(&ies, pfcp_ie::OUTER_HEADER_CREATION) {
        Some(ie) => {
            match ParsedOuterHeaderCreation::parse(ie.value.as_slice()) {
                Ok(o) => Some(o),
                Err(e) => {
                    return Err(e);
                },
            }
        },
        None => None,
    };
    Ok(ParsedForwardingParameters { destination_interface, network_instance, outer_header_creation })
}

/// Parsed Create FAR.
#[derive(Debug, Clone, Default)]
pub struct ParsedCreateFar {
    pub far_id: u32,
    pub apply_action: u16,
    pub forwarding_parameters: Option<ParsedForwardingParameters>,
    pub bar_id: Option<u8>,
}

/// The Forwarding Parameters value of a FAR: that of a Forwarding
/// Parameters IE, else that of an Update Forwarding Parameters IE.
pub open spec fn fp_value(ies: Seq<IeView>) -> Option<Seq<u8>> {
    match first_of(ies, pfcp_ie::FORWARDING_PARAMETERS) {
        Some(v) => Some(v),
        None => first_of(ies, pfcp_ie::UPDATE_FORWARDING_PARAMETERS),
    }
}

/// The Apply Action flags: two octets, or one when only one is given.
pub open spec fn apply_action_field(v: Option<Seq<u8>>) -> u16 {
    match v {
        Some(x) if x.len() >= 2 => u16_at(x, 0),
        Some(x) if x.len() == 1 => x[0] as u16,
        _ => 0,
    }
}

/// Why a Create FAR value cannot be read, if it cannot.
pub open spec fn create_far_error(d: Seq<u8>) -> Option<&'static str> {
    let ies = parse_ies(d);
    if first_of(ies, pfcp_ie::FAR_ID) is None {
        Some("FAR ID missing")
    } else {
        match fp_value(ies) {
            Some(v) => fp_error(v),
            None => None,
        }
    }
}

/// What a parsed Create FAR holds of the value it was read from.
pub open spec fn create_far_fields(p: ParsedCreateFar, d: Seq<u8>) -> bool {
    let ies = parse_ies(d);
    &&& p.far_id == u32_field(first_of(ies, pfcp_ie::FAR_ID))
    &&& p.apply_action == apply_action_field(first_of(ies, pfcp_ie::APPLY_ACTION))
    &&& match fp_value(ies) {
        Some(v) => p.forwarding_parameters matches Some(f) && fp_fields(f, v),
        None => p.forwarding_parameters is None,
    }
    &&& p.bar_id == opt_u8_field(first_of(ies, pfcp_ie::BAR_ID))
}

/// Parses a Create FAR (or Update FAR) grouped IE value.
pub fn parse_create_far(data: &[u8]) -> (r: Result<ParsedCreateFar, &'static str>)
    ensures
        r is Err <==> create_far_error(data@) is Some,
        r matches Err(e) ==> create_far_error(data@) == Some(e),
        r matches Ok(p) ==> create_far_fields(p, data@),
{
    let ies = ParsedIe::parse_all(data);
    let far_id = match lookup(&ies, pfcp_ie::FAR_ID) {
        Some(ie) => {
            if ie.value.len() >= 4 {
                read_u32(ie.value.as_slice(), 0)
            } else {
                0
            }
        },
        None => {
            return Err("FAR ID missing");
        },
    };
    let apply_action = match lookup(&ies, pfcp_ie::APPLY_ACTION) {
        Some(ie) => {
            if ie.value.len() >= 2 {
                read_u16(ie.value.as_slice(), 0)
            } else if ie.value.len() == 1 {
                ie.value[0] as u16
            } else {
                0
            }
        },
        None => 0,
    };
    let fp_ie = match lookup(&ies, pfcp_ie::FORWARDING_PARAMETERS) {
        Some(ie) => Some(ie),
        None => lookup(&ies, pfcp_ie::UPDATE_FORWARDING_PARAMETERS),
    };
    let forwarding_parameters = match fp_ie {
        Some(ie) => {
            match parse_forwarding_parameters(ie.value.as_slice()) {
                Ok(f) => Some(f),
                Err(e) => {
                    return Err(e);
                },
            }
        },
        None => None,
    };
    let bar_id = read_opt_u8(lookup(&ies, pfcp_ie::BAR_ID));
    Ok(ParsedCreateFar { far_id, apply_action, forwarding_parameters, bar_id })
}

// ----------------------------------------------------------------------------
// Create QER
// ----------------------------------------------------------------------------

/// Parsed Create QER. Bit rates are in bit/s.
#[derive(Debug, Clone, Copy, Default)]
pub struct ParsedCreateQer {
    pub qer_id: u32,
    /// 0 = OPEN, 1 = CLOSED
    pub ul_gate: u8,
    pub dl_gate: u8,
    pub ul_mbr: u64,
    pub dl_mbr: u64,
    pub ul_gbr: u64,
    pub dl_gbr: u64,
    pub qfi: Option<u8>,
}

/// The value of five big-endian octets starting at `off`.
pub open spec fn u40_at(x: Seq<u8>, off: int) -> int {
    x[off] as int * 0x1_0000_0000 + u32_at(x, off + 1) as int
}

/// A bit rate of an MBR or GBR value (TS 29.244 8.2.8): the five octets at
/// `off` are kbit/s. Absent or short, the rate is 0.
pub open spec fn rate_field(v: Option<Seq<u8>>, off: int) -> int {
    match v {
        Some(x) if x.len() >= 10 => u40_at(x, off) * 1000,
        _ => 0,
    }
}

/// Why a Create QER value cannot be read, if it cannot: no QER ID.
pub open spec fn create_qer_error(d: Seq<u8>) -> Option<&'static str> {
    if first_of(parse_ies(d), pfcp_ie::QER_ID) is None {
        Some("QER ID missing")
    } else {
        None
    }
}

/// What a parsed Create QER holds of the value it was read from. A Gate
/// Status octet (TS 29.244 8.2.7) has the DL gate in bits 1-2 and the UL
/// gate in bits 3-4; the QFI is its low six bits.
pub open spec fn create_qer_fields(p: ParsedCreateQer, d: Seq<u8>) -> bool {
    let ies = parse_ies(d);
    let gate = first_of(ies, pfcp_ie::GATE_STATUS);
    &&& p.qer_id == u32_field(first_of(ies, pfcp_ie::QER_ID))
    &&& p.dl_gate == (match gate {
        Some(x) if x.len() >= 1 => x[0] & 0x03,
        _ => 0,
    })
    &&& p.ul_gate == (match gate {
        Some(x) if x.len() >= 1 => (x[0] >> 2u8) & 0x03,
        _ => 0,
    })
    &&& p.ul_mbr == rate_field(first_of(ies, pfcp_ie::MBR), 0)
    &&& p.dl_mbr == rate_field(first_of(ies, pfcp_ie::MBR), 5)
    &&& p.ul_gbr == rate_field(first_of(ies, pfcp_ie::GBR), 0)
    &&& p.dl_gbr == rate_field(first_of(ies, pfcp_ie::GBR), 5)
    &&& p.qfi == (match first_of(ies, pfcp_ie::QFI) {
        Some(x) if x.len() >= 1 => Some(x[0] & 0x3F),
        _ => None,
    })
}

/// Reads a five-octet kbit/s rate at `off` and gives it in bit/s.
fn read_rate(x: &[u8], off: usize) -> (r: u64)
    requires
        off + 5 <= x@.len(),
    ensures
        r == u40_at(x@, off as int) * 1000,
{
    let hi = x[off] as u64;
    let lo = read_u32(x, off + 1) as u64;
    let kbps = hi * 0x1_0000_0000 + lo;
    assert(kbps < 0x100_0000_0000);
    assert(kbps * 1000 < 0x1_0000_0000_0000_0000) by (nonlinear_arith)
        requires
            kbps < 0x100_0000_0000,
    ;
    kbps * 1000
}

/// Reads the uplink and downlink rates of an MBR or GBR IE.
fn read_rates(ie: Option<&ParsedIe>) -> (r: (u64, u64))
    ensures
        r.0 == rate_field(value_of(ie), 0),
        r.1 == rate_field(value_of(ie), 5),
{
    match ie {
        Some(x) => {
            if x.value.len() >= 10 {
                (read_rate(x.value.as_slice(), 0), read_rate(x.value.as_slice(), 5))
            } else {
                (0, 0)
            }
        },
        None => (0, 0),
    }
}

/// Parses a Create QER (or Update QER) grouped IE value.
pub fn parse_create_qer(data: &[u8]) -> (r: Result<ParsedCreateQer, &'static str>)
    ensures
        r is Err <==> create_qer_error(data@) is Some,
        r matches Err(e) ==> create_qer_error(data@) == Some(e),
        r matches Ok(p) ==> create_qer_fields(p, data@),
{
    let ies = ParsedIe::parse_all(data);
    let qer_id = match lookup(&ies, pfcp_ie::QER_ID) {
        Some(ie) => {
            if ie.value.len() >= 4 {
                read_u32(ie.value.as_slice(), 0)
            } else {
                0
            }
        },
        None => {
            return Err("QER ID missing");
        },
    };
    let (dl_gate, ul_gate) = match lookup(&ies, pfcp_ie::GATE_STATUS) {
        Some(ie) => {
            if ie.value.len() >= 1 {
                (ie.value[0] & 0x03, (ie.value[0] >> 2u8) & 0x03)
            } else {
                (0, 0)
            }
        },
        None => (0, 0),
    };
    let (ul_mbr, dl_mbr) = read_rates(lookup(&ies, pfcp_ie::MBR));
    let (ul_gbr, dl_gbr) = read_rates(lookup(&ies, pfcp_ie::GBR));
    let qfi = match lookup(&ies, pfcp_ie::QFI) {
        Some(ie) => {
            if ie.value.len() >= 1 {
                Some(ie.value[0] & 0x3F)
            } else {
                None
            }
        },
        None => None,
    };
    Ok(ParsedCreateQer { qer_id, ul_gate, dl_gate, ul_mbr, dl_mbr, ul_gbr, dl_gbr, qfi })
}

// ----------------------------------------------------------------------------
// Create URR
// ----------------------------------------------------------------------------

/// Parsed Create URR.
#[derive(Debug, Clone, Copy, Default)]
pub struct ParsedCreateUrr {
    pub urr_id: u32,
    pub measure_duration: bool,
    pub measure_volume: bool,
    pub trigger_periodic: bool,
    pub trigger_volume_threshold: bool,
    pub trigger_time_threshold: bool,
    pub trigger_volume_quota: bool,
    pub trigger_time_quota: bool,
    pub measurement_period_secs: Option<u32>,
    pub volume_threshold_total: Option<u64>,
    pub volume_threshold_ul: Option<u64>,
    pub volume_threshold_dl: Option<u64>,
    pub volume_quota_total: Option<u64>,
    pub volume_quota_ul: Option<u64>,
    pub volume_quota_dl: Option<u64>,
    pub time_threshold_secs: Option<u32>,
    pub time_quota_secs: Option<u32>,
}

/// The volumes of a Volume Threshold or Volume Quota value (TS 29.244
/// 8.2.13): after the flags octet (TOVOL 0x01, ULVOL 0x02, DLVOL 0x04),
/// each flagged volume that fits in what is left, in that order.
pub open spec fn volume_fields(v: Option<Seq<u8>>) -> (Option<u64>, Option<u64>, Option<u64>) {
    match v {
        Some(x) if x.len() >= 1 => {
            let f = x[0];
            let t = if has_bit(f, 0x01) && x.len() - 1 >= 8 {
                Some(u64_at(x, 1))
            } else {
                None
            };
            let o2 = 1 + if t is Some { 8int } else { 0int };
            let u = if has_bit(f, 0x02) && x.len() - o2 >= 8 {
                Some(u64_at(x, o2))
            } else {
                None
            };
            let o3 = o2 + if u is Some { 8int } else { 0int };
            let d = if has_bit(f, 0x04) && x.len() - o3 >= 8 {
                Some(u64_at(x, o3))
            } else {
                None
            };
            (t, u, d)
        },
        _ => (None, None, None),
    }
}

/// Why a Create URR value cannot be read, if it cannot: no URR ID.
pub open spec fn create_urr_error(d: Seq<u8>) -> Option<&'static str> {
    if first_of(parse_ies(d), pfcp_ie::URR_ID) is None {
        Some("URR ID missing")
    } else {
        None
    }
}

/// A flag of the first octet of a value, false when absent or empty.
pub open spec fn flag_at0(v: Option<Seq<u8>>, mask: u8) -> bool {
    match v {
        Some(x) if x.len() >= 1 => has_bit(x[0], mask),
        _ => false,
    }
}

/// A flag of the third octet of a value, false when it has fewer octets.
pub open spec fn flag_at2(v: Option<Seq<u8>>, mask: u8) -> bool {
    match v {
        Some(x) if x.len() >= 3 => has_bit(x[2], mask),
        _ => false,
    }
}

/// What a parsed Create URR holds of the value it was read from. The
/// Measurement Method gives DURAT (0x01) and VOLUM (0x02); the Reporting
/// Triggers give PERIO, VOLTH and TIMTH in the first octet and, as this
/// reader takes them, VOLQU (0x02) and TIMQU (0x04) in the third.
pub open spec fn create_urr_fields(p: ParsedCreateUrr, d: Seq<u8>) -> bool {
    let ies = parse_ies(d);
    let mm = first_of(ies, pfcp_ie::MEASUREMENT_METHOD);
    let rt = first_of(ies, pfcp_ie::REPORTING_TRIGGERS);
    let vt = volume_fields(first_of(ies, pfcp_ie::VOLUME_THRESHOLD));
    let vq = volume_fields(first_of(ies, pfcp_ie::VOLUME_QUOTA));
    &&& p.urr_id == u32_field(first_of(ies, pfcp_ie::URR_ID))
    &&& p.measure_duration == flag_at0(mm, 0x01)
    &&& p.measure_volume == flag_at0(mm, 0x02)
    &&& p.trigger_periodic == flag_at0(rt, 0x01)
    &&& p.trigger_volume_threshold == flag_at0(rt, 0x02)
    &&& p.trigger_time_threshold == flag_at0(rt, 0x04)
    &&& p.trigger_volume_quota == flag_at2(rt, 0x02)
    &&& p.trigger_time_quota == flag_at2(rt, 0x04)
    &&& p.measurement_period_secs == opt_u32_field(first_of(ies, pfcp_ie::MEASUREMENT_PERIOD))
    &&& p.volume_threshold_total == vt.0
    &&& p.volume_threshold_ul == vt.1
    &&& p.volume_threshold_dl == vt.2
    &&& p.volume_quota_total == vq.0
    &&& p.volume_quota_ul == vq.1
    &&& p.volume_quota_dl == vq.2
    &&& p.time_threshold_secs == opt_u32_field(first_of(ies, pfcp_ie::TIME_THRESHOLD))
    &&& p.time_quota_secs == opt_u32_field(first_of(ies, pfcp_ie::TIME_QUOTA))
}

/// Reads the volumes of a Volume Threshold or Volume Quota IE.
fn read_volumes(ie: Option<&ParsedIe>) -> (r: (Option<u64>, Option<u64>, Option<u64>))
    ensures
        r == volume_fields(value_of(ie)),
{
    match ie {
        Some(x) => {
            let v = x.value.as_slice();
            if v.len() >= 1 {
                let flags = v[0];
                let mut off: usize = 1;
                let total = if (flags & 0x01) != 0 && v.len() - off >= 8 {
                    let t = read_u64(v, off);
                    off = off + 8;
                    Some(t)
                } else {
                    None
                };
                let uplink = if (flags & 0x02) != 0 && v.len() - off >= 8 {
                    let u = read_u64(v, off);
                    off = off + 8;
                    Some(u)
                } else {
                    None
                };
                let downlink = if (flags & 0x04) != 0 && v.len() - off >= 8 {
                    Some(read_u64(v, off))
                } else {
                    None
                };
                (total, uplink, downlink)
            } else {
                (None, None, None)
            }
        },
        None => (None, None, None),
    }
}

/// Parses a Create URR (or Update URR) grouped IE value.
pub fn parse_create_urr(data: &[u8]) -> (r: Result<ParsedCreateUrr, &'static str>)
    ensures
        r is Err <==> create_urr_error(data@) is Some,
        r matches Err(e) ==> create_urr_error(data@) == Some(e),
        r matches Ok(p) ==> create_urr_fields(p, data@),
{
    let ies = ParsedIe::parse_all(data);
    let urr_id = match lookup(&ies, pfcp_ie::URR_ID) {
        Some(ie) => {
            if ie.value.len() >= 4 {
                read_u32(ie.value.as_slice(), 0)
            } else {
                0
            }
        },
        None => {
            return Err("URR ID missing");
        },
    };
    let mut measure_duration = false;
    let mut measure_volume = false;
    if let Some(ie) = lookup(&ies, pfcp_ie::MEASUREMENT_METHOD) {
        if ie.value.len() >= 1 {
            measure_duration = (ie.value[0] & 0x01) != 0;
            measure_volume = (ie.value[0] & 0x02) != 0;
        }
    }
    let mut trigger_periodic = false;
    let mut trigger_volume_threshold = false;
    let mut trigger_time_threshold = false;
    let mut trigger_volume_quota = false;
    let mut trigger_time_quota = false;
    if let Some(ie) = lookup(&ies, pfcp_ie::REPORTING_TRIGGERS) {
        if ie.value.len() >= 1 {
            trigger_periodic = (ie.value[0] & 0x01) != 0;
            trigger_volume_threshold = (ie.value[0] & 0x02) != 0;
            trigger_time_threshold = (ie.value[0] & 0x04) != 0;
            if ie.value.len() >= 3 {
                trigger_volume_quota = (ie.value[2] & 0x02) != 0;
                trigger_time_quota = (ie.value[2] & 0x04) != 0;
            }
        }
    }
    let measurement_period_secs = read_opt_u32(lookup(&ies, pfcp_ie::MEASUREMENT_PERIOD));
    let (volume_threshold_total, volume_threshold_ul, volume_threshold_dl) = read_volumes(
        lookup(&ies, pfcp_ie::VOLUME_THRESHOLD),
    );
    let time_threshold_secs = read_opt_u32(lookup(&ies, pfcp_ie::TIME_THRESHOLD));
    let (volume_quota_total, volume_quota_ul, volume_quota_dl) = read_volumes(lookup(&ies, pfcp_ie::VOLUME_QUOTA));
    let time_quota_secs = read_opt_u32(lookup(&ies, pfcp_ie::TIME_QUOTA));
    Ok(
        ParsedCreateUrr {
            urr_id,
            measure_duration,
            measure_volume,
            trigger_periodic,
            trigger_volume_threshold,
            trigger_time_threshold,
            trigger_volume_quota,
            trigger_time_quota,
            measurement_period_secs,
            volume_threshold_total,
            volume_threshold_ul,
            volume_threshold_dl,
            volume_quota_total,
            volume_quota_ul,
            volume_quota_dl,
            time_threshold_secs,
            time_quota_secs,
        },
    )
}

// ----------------------------------------------------------------------------
// Create BAR and node-level IEs
// ----------------------------------------------------------------------------

/// Parsed Create / Update BAR (TS 29.244 7.5.2.6).
#[derive(Debug, Clone, Copy, Default)]
pub struct ParsedCreateBar {
    pub bar_id: u8,
    pub suggested_buffering_packets_count: Option<u8>,
    pub ddn_delay: Option<u8>,
}

/// Why a Create BAR value cannot be read, if it cannot.
pub open spec fn create_bar_error(d: Seq<u8>) -> Option<&'static str> {
    match first_of(parse_ies(d), pfcp_ie::BAR_ID) {
        None => Some("BAR ID missing"),
        Some(v) if v.len() == 0 => Some("BAR ID empty"),
        _ => None,
    }
}

/// What a parsed Create BAR holds of the value it was read from.
pub open spec fn create_bar_fields(p: ParsedCreateBar, d: Seq<u8>) -> bool {
    let ies = parse_ies(d);
    &&& p.bar_id == u8_field(first_of(ies, pfcp_ie::BAR_ID))
    &&& p.suggested_buffering_packets_count == opt_u8_field(
        first_of(ies, pfcp_ie::SUGGESTED_BUFFERING_PACKETS_COUNT),
    )
    &&& p.ddn_delay == opt_u8_field(first_of(ies, pfcp_ie::DOWNLINK_DATA_NOTIFICATION_DELAY))
}

/// Parses a Create BAR or Update BAR grouped IE value.
pub fn parse_create_bar(data: &[u8]) -> (r: Result<ParsedCreateBar, &'static str>)
    ensures
        r is Err <==> create_bar_error(data@) is Some,
        r matches Err(e) ==> create_bar_error(data@) == Some(e),
        r matches Ok(p) ==> create_bar_fields(p, data@),
{
    let ies = ParsedIe::parse_all(data);
    let bar_id = match lookup(&ies, pfcp_ie::BAR_ID) {
        Some(ie) => {
            if ie.value.len() == 0 {
                return Err("BAR ID empty");
            }
            ie.value[0]
        },
        None => {
            return Err("BAR ID missing");
        },
    };
    let suggested_buffering_packets_count = read_opt_u8(lookup(&ies, pfcp_ie::SUGGESTED_BUFFERING_PACKETS_COUNT));
    let ddn_delay = read_opt_u8(lookup(&ies, pfcp_ie::DOWNLINK_DATA_NOTIFICATION_DELAY));
    Ok(ParsedCreateBar { bar_id, suggested_buffering_packets_count, ddn_delay })
}

/// The Recovery Time Stamp of a node-level message payload, when present
/// and four octets long at least.
pub fn parse_recovery_time_stamp(payload: &[u8]) -> (r: Option<u32>)
    ensures
        r == opt_u32_field(first_of(parse_ies(payload@), pfcp_ie::RECOVERY_TIME_STAMP)),
{
    let ies = ParsedIe::parse_all(payload);
    read_opt_u32(lookup(&ies, pfcp_ie::RECOVERY_TIME_STAMP))
}

/// The PFCPSMReq-Flags octet (DROBU / SNDEM / QAURR) of a message payload,
/// when present.
pub fn parse_pfcpsmreq_flags(payload: &[u8]) -> (r: Option<u8>)
    ensures
        r == opt_u8_field(first_of(parse_ies(payload@), pfcp_ie::PFCPSMREQ_FLAGS)),
{
    let ies = ParsedIe::parse_all(payload);
    read_opt_u8(lookup(&ies, pfcp_ie::PFCPSMREQ_FLAGS))
}

/// A heartbeat the UPF builds reads back, whatever follows its Recovery
/// Time Stamp IE: the Recovery Time Stamp it was built with.
pub proof fn lemma_heartbeat_reads_back(recovery_time_stamp: u32, rest: Seq<u8>)
    ensures
        opt_u32_field(first_of(parse_ies(heartbeat_value(recovery_time_stamp) + rest), pfcp_ie::RECOVERY_TIME_STAMP))
            == Some(recovery_time_stamp),
{
    lemma_u32_roundtrip(recovery_time_stamp);
    lemma_parse_tlv(pfcp_ie::RECOVERY_TIME_STAMP, be32(recovery_time_stamp), rest);
}

/// The Load Control Information of a heartbeat reads back: the sequence
/// number it was built with, and the load capped at 100 as metric.
pub proof fn lemma_load_control_reads_back(load_seq: u32, load_metric: u8)
    ensures
        load_control_value(load_seq, load_metric).len() == 13,
        opt_u32_field(first_of(parse_ies(load_control_value(load_seq, load_metric)), pfcp_ie::SEQUENCE_NUMBER))
            == Some(load_seq),
        first_of(parse_ies(load_control_value(load_seq, load_metric)), pfcp_ie::METRIC) == Some(
            seq![if load_metric <= 100 { load_metric } else { 100u8 }],
        ),
{
    lemma_u32_roundtrip(load_seq);
    let m = seq![if load_metric <= 100 { load_metric } else { 100u8 }];
    let sn = tlv(pfcp_ie::SEQUENCE_NUMBER, be32(load_seq));
    let mt = tlv(pfcp_ie::METRIC, m);
    lemma_parse_tlv(pfcp_ie::SEQUENCE_NUMBER, be32(load_seq), mt);
    lemma_parse_tlv(pfcp_ie::METRIC, m, Seq::<u8>::empty());
    assert(mt + Seq::<u8>::empty() =~= mt);
    let lci = load_control_value(load_seq, load_metric);
    assert(lci =~= sn + mt);
    assert(parse_ies(lci) =~= seq![(pfcp_ie::SEQUENCE_NUMBER, be32(load_seq)), (pfcp_ie::METRIC, m)]);
    assert(parse_ies(lci).drop_first() =~= seq![(pfcp_ie::METRIC, m)]);
    reveal_with_fuel(first_of, 3);
}

/// A heartbeat that carries the UPF's load reads back its Load Control
/// Information after the Recovery Time Stamp.
#[verifier::spinoff_prover]
#[verifier::rlimit(50)]
pub proof fn lemma_heartbeat_load_reads_back(recovery_time_stamp: u32, load_seq: u32, load_metric: u8)
    ensures
        first_of(
            parse_ies(
                heartbeat_value(recovery_time_stamp) + tlv(
                    pfcp_ie::LOAD_CONTROL_INFORMATION,
                    load_control_value(load_seq, load_metric),
                ),
            ),
            pfcp_ie::LOAD_CONTROL_INFORMATION,
        ) == Some(load_control_value(load_seq, load_metric)),
{
    let lci = load_control_value(load_seq, load_metric);
    assert(lci.len() == 13);
    let lci_ie = tlv(pfcp_ie::LOAD_CONTROL_INFORMATION, lci);
    lemma_parse_tlv(pfcp_ie::RECOVERY_TIME_STAMP, be32(recovery_time_stamp), lci_ie);
    lemma_parse_tlv(pfcp_ie::LOAD_CONTROL_INFORMATION, lci, Seq::<u8>::empty());
    assert(lci_ie + Seq::<u8>::empty() =~= lci_ie);
    let ies = parse_ies(heartbeat_value(recovery_time_stamp) + lci_ie);
    assert(ies =~= seq![(pfcp_ie::RECOVERY_TIME_STAMP, be32(recovery_time_stamp)), (pfcp_ie::LOAD_CONTROL_INFORMATION, lci)]);
    lemma_second_of_two(ies, pfcp_ie::LOAD_CONTROL_INFORMATION);
}

/// The first IE of a type in two IEs where only the second has it.
proof fn lemma_second_of_two(ies: Seq<IeView>, t: u16)
    requires
        ies.len() == 2,
        ies[0].0 != t,
        ies[1].0 == t,
    ensures
        first_of(ies, t) == Some(ies[1].1),
{
    assert(ies.drop_first().drop_first() =~= Seq::<IeView>::empty());
    assert(ies.drop_first()[0] == ies[1]);
    reveal_with_fuel(first_of, 3);
}

} // verus!
