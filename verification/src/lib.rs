//! PFCP (N4) message building and parsing, GTP-U framing and the user-plane
//! forwarding rules of a 5G SMF/UPF pair, with their behaviour stated in
//! Verus contracts.

pub mod wire;
pub mod buffer;
pub mod pfcp;
pub mod smf_n4;
pub mod ie;
pub mod smf_session;
pub mod upf_parse;
pub mod text;
pub mod upf_rules;
pub mod upf_n4;
pub mod gtpu;
pub mod ip_qos;
pub mod dp_rules;
pub mod dp_urr;
pub mod dp_session;
pub mod dp_manager;
pub mod gtpu_path;
pub mod energy;
pub mod dp_plane;
pub mod smf_config;
pub mod sbi_text;
pub mod smf_report;
pub mod dp_install;
pub mod smf_pfcp;
pub mod smf_sbi;
pub mod smf_policy;
pub mod smf_create;
pub mod smf_update;
