//! The SMF's configuration as its YAML file gives it, and what is derived
//! from it: the usage reporting rule (URR) a session gets for its DNN, and
//! the URR IDs this SMF allocates.

use vstd::prelude::*;
use crate::smf_n4::UrrParams;

verus! {

/// The measurement method of a URR profile; absent flags take their
/// defaults (volume on, duration and event off).
#[derive(Debug, Clone, Copy)]
pub struct MeasurementMethodConfig {
    pub duration: Option<bool>,
    pub volume: Option<bool>,
    pub event: Option<bool>,
}

/// The reporting triggers of a URR profile; absent flags take their
/// defaults (volume threshold on, the others off).
#[derive(Debug, Clone, Copy)]
pub struct ReportingTriggersConfig {
    pub periodic_reporting: Option<bool>,
    pub volume_threshold: Option<bool>,
    pub volume_quota_exhausted: Option<bool>,
    pub time_threshold: Option<bool>,
    pub time_quota_exhausted: Option<bool>,
}

/// Volumes in octets: total, uplink, downlink.
#[derive(Debug, Clone, Copy)]
pub struct VolumeThresholdConfig {
    pub total_volume: Option<u64>,
    pub uplink_volume: Option<u64>,
    pub downlink_volume: Option<u64>,
}

/// Volumes in octets: total, uplink, downlink.
#[derive(Debug, Clone, Copy)]
pub struct VolumeQuotaConfig {
    pub total_volume: Option<u64>,
    pub uplink_volume: Option<u64>,
    pub downlink_volume: Option<u64>,
}

/// The configuration of a DNN (APN).
#[derive(Debug, Clone)]
pub struct ApnConfigEntry {
    pub apn_name: String,
    /// The name of its URR profile, if any
    pub urr_profile_ref: Option<String>,
}

/// A configured URR profile.
#[derive(Debug, Clone, Copy)]
pub struct UrfProfileConfig {
    pub measurement_method: Option<MeasurementMethodConfig>,
    pub reporting_triggers: Option<ReportingTriggersConfig>,
    pub measurement_period: Option<u32>,
    pub volume_threshold: Option<VolumeThresholdConfig>,
    pub volume_quota: Option<VolumeQuotaConfig>,
    pub time_threshold: Option<u32>,
    pub time_quota: Option<u32>,
    pub quota_validity_time: Option<u32>,
}

/// Feature switches.
#[derive(Debug, Clone, Copy)]
pub struct FeatureFlagsConfig {
    pub usage_quota_enforcement: bool,
}

/// The SMF configuration in use. The DNN and profile tables are lists of
/// (name, entry) in which a name occurs at most once.
#[derive(Debug, Clone)]
pub struct SmfConfig {
    pub sbi_addr: String,
    pub sbi_port: u16,
    pub max_ue: usize,
    pub max_sess: usize,
    pub max_bearer: usize,
    /// The NRF URI, from `smf.sbi.client.nrf[0].uri`
    pub nrf_uri: Option<String>,
    pub apn_config_hash: Vec<(String, ApnConfigEntry)>,
    pub urr_profile_hash: Vec<(String, UrfProfileConfig)>,
    pub feature_flags: FeatureFlagsConfig,
}

/// The configuration used without a file: SBI on 0.0.0.0:7777, room for
/// 1024 UEs, 4096 sessions and 8192 bearers, no NRF, no DNN or profile,
/// usage quota enforcement off.
pub open spec fn is_default_config(c: SmfConfig) -> bool {
    &&& c.sbi_addr@ == "0.0.0.0"@
    &&& c.sbi_port == 7777
    &&& c.max_ue == 1024 && c.max_sess == 4096 && c.max_bearer == 8192
    &&& c.nrf_uri is None
    &&& c.apn_config_hash@.len() == 0
    &&& c.urr_profile_hash@.len() == 0
    &&& !c.feature_flags.usage_quota_enforcement
}

impl Default for SmfConfig {
    /// The configuration used without a file (see `is_default_config`).
    fn default() -> (c: Self)
        ensures
            is_default_config(c),
    {
        SmfConfig {
            sbi_addr: "0.0.0.0".to_owned(),
            sbi_port: 7777,
            max_ue: 1024,
            max_sess: 4096,
            max_bearer: 8192,
            nrf_uri: None,
            apn_config_hash: Vec::new(),
            urr_profile_hash: Vec::new(),
            feature_flags: FeatureFlagsConfig { usage_quota_enforcement: false },
        }
    }
}

/// The name of the profile used for a DNN with none of its own.
pub open spec fn default_profile_name() -> Seq<char> {
    "default_configured_urr"@
}

/// The index of the first entry named `name`, if any.
pub open spec fn first_named<V>(entries: Seq<(String, V)>, name: Seq<char>) -> Option<int>
    decreases entries.len(),
{
    if entries.len() == 0 {
        None
    } else if entries[0].0@ == name {
        Some(0)
    } else {
        match first_named(entries.drop_first(), name) {
            Some(i) => Some(i + 1),
            None => None,
        }
    }
}

/// The entry named `name` in a table, if any.
pub open spec fn named<V>(entries: Seq<(String, V)>, name: Seq<char>) -> Option<V> {
    match first_named(entries, name) {
        Some(i) => Some(entries[i].1),
        None => None,
    }
}

/// Where a front-to-back search first finds a name.
proof fn lemma_first_named_at<V>(entries: Seq<(String, V)>, name: Seq<char>, i: int)
    requires
        0 <= i < entries.len(),
        entries[i].0@ == name,
        forall|j: int| 0 <= j < i ==> entries[j].0@ != name,
    ensures
        first_named(entries, name) == Some(i),
    decreases i,
{
    if i > 0 {
        lemma_first_named_at(entries.drop_first(), name, i - 1);
    }
}

/// A search that finds no name.
proof fn lemma_first_named_none<V>(entries: Seq<(String, V)>, name: Seq<char>)
    requires
        forall|j: int| 0 <= j < entries.len() ==> entries[j].0@ != name,
    ensures
        first_named(entries, name) is None,
    decreases entries.len(),
{
    if entries.len() > 0 {
        lemma_first_named_none(entries.drop_first(), name);
    }
}

/// Finds the entry named `name` in a table (see `named`).
pub fn find_named<'a, V>(entries: &'a Vec<(String, V)>, name: &String) -> (r: Option<&'a V>)
    ensures
        match r {
            Some(v) => named(entries@, name@) == Some(*v),
            None => named(entries@, name@) is None,
        },
{
    let n = entries.len();
    let mut i: usize = 0;
    while i < n
        invariant
            n == entries@.len(),
            i <= n,
            forall|j: int| 0 <= j < i ==> entries@[j].0@ != name@,
        decreases n - i,
    {
        if entries[i].0 == *name {
            proof {
                lemma_first_named_at(entries@, name@, i as int);
            }
            return Some(&entries[i].1);
        }
        i = i + 1;
    }
    proof {
        lemma_first_named_none(entries@, name@);
    }
    None
}

/// The configured URR profile of a DNN: the one its entry names, when it
/// names one that exists; else the profile named
/// `default_configured_urr`, if configured.
pub open spec fn configured_profile(c: SmfConfig, dnn: Seq<char>) -> Option<UrfProfileConfig> {
    let own = match named(c.apn_config_hash@, dnn) {
        Some(apn) => match apn.urr_profile_ref {
            Some(r) => named(c.urr_profile_hash@, r@),
            None => None,
        },
        None => None,
    };
    match own {
        Some(p) => Some(p),
        None => named(c.urr_profile_hash@, default_profile_name()),
    }
}

/// Finds the configured URR profile of a DNN (see `configured_profile`).
pub fn configured_urr_profile_for_apn<'a>(config: &'a SmfConfig, dnn: &str) -> (r: Option<&'a UrfProfileConfig>)
    ensures
        match r {
            Some(p) => configured_profile(*config, dnn@) == Some(*p),
            None => configured_profile(*config, dnn@) is None,
        },
{
    let d = dnn.to_owned();
    let own = match find_named(&config.apn_config_hash, &d) {
        Some(apn) => match &apn.urr_profile_ref {
            Some(r) => find_named(&config.urr_profile_hash, r),
            None => None,
        },
        None => None,
    };
    match own {
        Some(p) => Some(p),
        None => {
            let name = "default_configured_urr".to_owned();
            find_named(&config.urr_profile_hash, &name)
        },
    }
}

/// Allocates URR IDs: from 1 up, never with bit 31 set, back to 1 after
/// 0x7FFFFFFF.
#[derive(Debug)]
pub struct UrrIdAllocator {
    next: u32,
}

impl UrrIdAllocator {
    #[verifier::type_invariant]
    spec fn inv(self) -> bool {
        1 <= self.next <= 0x7FFF_FFFF
    }

    /// The ID the next allocation gives.
    pub closed spec fn next_id(self) -> u32 {
        self.next
    }

    /// An allocator whose first ID is 1.
    pub fn new() -> (a: Self)
        ensures
            a.next_id() == 1,
    {
        UrrIdAllocator { next: 1 }
    }

    /// Allocates the next URR ID: non-zero, below 0x80000000.
    pub fn allocate_urr_id(&mut self) -> (id: u32)
        ensures
            id == old(self).next_id(),
            1 <= id <= 0x7FFF_FFFF,
            final(self).next_id() == (if id >= 0x7FFF_FFFF {
                1
            } else {
                (id + 1) as u32
            }),
    {
        proof {
            use_type_invariant(&*self);
        }
        let id = self.next;
        self.next = if id >= 0x7FFF_FFFF {
            1
        } else {
            id + 1
        };
        id
    }
}

/// The Reporting Triggers value (TS 29.244 8.2.19) with the given flags:
/// PERIO 0x010000, VOLTH 0x020000, TIMTH 0x040000, VOLQU 0x000100, TIMQU
/// 0x000200.
pub open spec fn trigger_bits(perio: bool, volth: bool, timth: bool, volqu: bool, timqu: bool) -> u32 {
    ((if perio { 0x010000u32 } else { 0 }) + (if volth { 0x020000u32 } else { 0 }) + (if timth { 0x040000u32 } else { 0 })
        + (if volqu { 0x000100u32 } else { 0 }) + (if timqu { 0x000200u32 } else { 0 })) as u32
}

/// The Reporting Triggers of a profile; absent flags default to VOLTH
/// only.
pub open spec fn profile_triggers(p: UrfProfileConfig) -> u32 {
    match p.reporting_triggers {
        Some(t) => trigger_bits(
            flag_or(t.periodic_reporting, false),
            flag_or(t.volume_threshold, true),
            flag_or(t.time_threshold, false),
            flag_or(t.volume_quota_exhausted, false),
            flag_or(t.time_quota_exhausted, false),
        ),
        None => trigger_bits(false, true, false, false, false),
    }
}

/// A flag of an optional group, with its default.
pub open spec fn flag_or(v: Option<bool>, dflt: bool) -> bool {
    match v {
        Some(b) => b,
        None => dflt,
    }
}

/// The measurement method (duration, volume, event) of a profile; absent
/// flags default to volume only.
pub open spec fn profile_method(p: UrfProfileConfig) -> (bool, bool, bool) {
    match p.measurement_method {
        Some(m) => (flag_or(m.duration, false), flag_or(m.volume, true), flag_or(m.event, false)),
        None => (false, true, false),
    }
}

/// The URR parameters a profile gives, with the URR ID `id`.
pub open spec fn profile_params(p: UrfProfileConfig, id: u32, r: UrrParams) -> bool {
    &&& r.urr_id == id
    &&& r.measurement_method == profile_method(p)
    &&& r.reporting_triggers == profile_triggers(p)
    &&& r.measurement_period == p.measurement_period
    &&& r.volume_threshold == (match p.volume_threshold {
        Some(v) => Some((v.total_volume, v.uplink_volume, v.downlink_volume)),
        None => None,
    })
    &&& r.volume_quota == (match p.volume_quota {
        Some(v) => Some((v.total_volume, v.uplink_volume, v.downlink_volume)),
        None => None,
    })
    &&& r.time_threshold == p.time_threshold
    &&& r.time_quota == p.time_quota
    &&& r.quota_validity_time == p.quota_validity_time
}

/// Converts a configured URR profile into URR parameters, taking a URR ID
/// from the allocator (see `profile_params`).
pub fn urr_params_from_config(cfg_profile: &UrfProfileConfig, ids: &mut UrrIdAllocator) -> (r: UrrParams)
    ensures
        profile_params(*cfg_profile, old(ids).next_id(), r),
        1 <= r.urr_id <= 0x7FFF_FFFF,
        final(ids).next_id() == (if old(ids).next_id() >= 0x7FFF_FFFF {
            1
        } else {
            (old(ids).next_id() + 1) as u32
        }),
{
    let (perio, volth, timth, volqu, timqu) = match &cfg_profile.reporting_triggers {
        Some(t) => (
            match t.periodic_reporting {
                Some(b) => b,
                None => false,
            },
            match t.volume_threshold {
                Some(b) => b,
                None => true,
            },
            match t.time_threshold {
                Some(b) => b,
                None => false,
            },
            match t.volume_quota_exhausted {
                Some(b) => b,
                None => false,
            },
            match t.time_quota_exhausted {
                Some(b) => b,
                None => false,
            },
        ),
        None => (false, true, false, false, false),
    };
    let triggers: u32 = (if perio { 0x010000u32 } else { 0 }) + (if volth { 0x020000u32 } else { 0 }) + (if timth {
        0x040000u32
    } else {
        0
    }) + (if volqu { 0x000100u32 } else { 0 }) + (if timqu { 0x000200u32 } else { 0 });
    let method = match &cfg_profile.measurement_method {
        Some(m) => (
            match m.duration {
                Some(b) => b,
                None => false,
            },
            match m.volume {
                Some(b) => b,
                None => true,
            },
            match m.event {
                Some(b) => b,
                None => false,
            },
        ),
        None => (false, true, false),
    };
    let volume_threshold = match &cfg_profile.volume_threshold {
        Some(v) => Some((v.total_volume, v.uplink_volume, v.downlink_volume)),
        None => None,
    };
    let volume_quota = match &cfg_profile.volume_quota {
        Some(v) => Some((v.total_volume, v.uplink_volume, v.downlink_volume)),
        None => None,
    };
    let urr_id = ids.allocate_urr_id();
    UrrParams {
        urr_id,
        measurement_method: method,
        reporting_triggers: triggers,
        measurement_period: cfg_profile.measurement_period,
        volume_threshold,
        volume_quota,
        time_threshold: cfg_profile.time_threshold,
        time_quota: cfg_profile.time_quota,
        quota_validity_time: cfg_profile.quota_validity_time,
    }
}

/// The built-in URR used when no profile is configured: volume
/// measurement, the VOLTH trigger, a total volume threshold of 1024
/// octets.
pub open spec fn builtin_params(id: u32, r: UrrParams) -> bool {
    &&& r.urr_id == id
    &&& r.measurement_method == (false, true, false)
    &&& r.reporting_triggers == 0x020000
    &&& r.measurement_period is None
    &&& r.volume_threshold == Some((Some(1024u64), None::<u64>, None::<u64>))
    &&& r.volume_quota is None
    &&& r.time_threshold is None && r.time_quota is None && r.quota_validity_time is None
}

/// Makes the built-in URR (see `builtin_params`), taking a URR ID from
/// the allocator.
pub fn default_urr_profile(ids: &mut UrrIdAllocator) -> (r: UrrParams)
    ensures
        builtin_params(old(ids).next_id(), r),
        final(ids).next_id() == (if old(ids).next_id() >= 0x7FFF_FFFF {
            1
        } else {
            (old(ids).next_id() + 1) as u32
        }),
{
    let urr_id = ids.allocate_urr_id();
    UrrParams {
        urr_id,
        measurement_method: (false, true, false),
        reporting_triggers: 0x020000,
        measurement_period: None,
        volume_threshold: Some((Some(1024), None, None)),
        volume_quota: None,
        time_threshold: None,
        time_quota: None,
        quota_validity_time: None,
    }
}

/// The URR a session on `dnn` gets: none while usage quota enforcement is
/// off; else the configured profile of the DNN, or the built-in one.
pub fn get_urr(config: &SmfConfig, dnn: &str, ids: &mut UrrIdAllocator) -> (r: Option<UrrParams>)
    ensures
        !config.feature_flags.usage_quota_enforcement ==> r is None && final(ids).next_id() == old(ids).next_id(),
        config.feature_flags.usage_quota_enforcement ==> (r matches Some(p) && match configured_profile(
            *config,
            dnn@,
        ) {
            Some(prof) => profile_params(prof, old(ids).next_id(), p),
            None => builtin_params(old(ids).next_id(), p),
        }),
{
    if !config.feature_flags.usage_quota_enforcement {
        return None;
    }
    match configured_urr_profile_for_apn(config, dnn) {
        Some(p) => Some(urr_params_from_config(p, ids)),
        None => Some(default_urr_profile(ids)),
    }
}

/// An address entry of the SBI section.
#[derive(Debug, Clone)]
pub struct AddrEntry {
    pub address: Option<String>,
    pub port: Option<u16>,
    pub uri: Option<String>,
}

/// The SBI clients: the NRF list.
#[derive(Debug, Clone)]
pub struct SbiClient {
    pub nrf: Option<Vec<AddrEntry>>,
}

/// The SBI section: servers and clients.
#[derive(Debug, Clone)]
pub struct SbiSection {
    pub server: Option<Vec<AddrEntry>>,
    pub client: Option<SbiClient>,
}

/// The `smf:` section of the YAML file.
#[derive(Debug, Clone)]
pub struct SmfSection {
    pub sbi: Option<SbiSection>,
    pub apn_config_hash: Option<Vec<(String, ApnConfigEntry)>>,
    pub urr_profile_hash: Option<Vec<(String, UrfProfileConfig)>>,
    pub feature_flags: Option<FeatureFlagsConfig>,
}

/// The YAML document.
#[derive(Debug, Clone)]
pub struct SmfYaml {
    pub smf: Option<SmfSection>,
}

/// The first entry of an optional list, if any.
pub open spec fn first_entry(l: Option<Vec<AddrEntry>>) -> Option<AddrEntry> {
    match l {
        Some(v) => if v@.len() > 0 {
            Some(v@[0])
        } else {
            None
        },
        None => None,
    }
}

/// The configuration a YAML document gives: the defaults, with the SBI
/// address and port of the first server (each when given), the URI of
/// the first NRF client, the DNN and profile tables and the feature flags
/// of its `smf:` section.
pub open spec fn flattened(y: SmfYaml, c: SmfConfig) -> bool {
    match y.smf {
        None => is_default_config(c),
        Some(smf) => {
            let server = match smf.sbi {
                Some(sbi) => first_entry(sbi.server),
                None => None,
            };
            let nrf = match smf.sbi {
                Some(sbi) => match sbi.client {
                    Some(cl) => first_entry(cl.nrf),
                    None => None,
                },
                None => None,
            };
            &&& c.sbi_addr@ == (match server {
                Some(e) => match e.address {
                    Some(a) => a@,
                    None => "0.0.0.0"@,
                },
                None => "0.0.0.0"@,
            })
            &&& c.sbi_port == (match server {
                Some(e) => match e.port {
                    Some(p) => p,
                    None => 7777u16,
                },
                None => 7777u16,
            })
            &&& c.nrf_uri == (match nrf {
                Some(e) => e.uri,
                None => None,
            })
            &&& c.max_ue == 1024 && c.max_sess == 4096 && c.max_bearer == 8192
            &&& c.apn_config_hash@ == (match smf.apn_config_hash {
                Some(v) => v@,
                None => Seq::empty(),
            })
            &&& c.urr_profile_hash@ == (match smf.urr_profile_hash {
                Some(v) => v@,
                None => Seq::empty(),
            })
            &&& c.feature_flags == (match smf.feature_flags {
                Some(f) => f,
                None => FeatureFlagsConfig { usage_quota_enforcement: false },
            })
        },
    }
}

/// The first entry of an optional list, taken out of it.
fn take_first(l: Option<Vec<AddrEntry>>) -> (r: Option<AddrEntry>)
    ensures
        r == first_entry(l),
{
    match l {
        Some(mut v) => if v.len() > 0 {
            Some(v.swap_remove(0))
        } else {
            None
        },
        None => None,
    }
}

/// Flattens a parsed YAML document into the configuration in use (see
/// `flattened`).
pub fn config_from_yaml(yaml: SmfYaml) -> (c: SmfConfig)
    ensures
        flattened(yaml, c),
{
    let mut config = SmfConfig::default();
    if let Some(smf) = yaml.smf {
        if let Some(sbi) = smf.sbi {
            if let Some(first) = take_first(sbi.server) {
                if let Some(addr) = first.address {
                    config.sbi_addr = addr;
                }
                if let Some(port) = first.port {
                    config.sbi_port = port;
                }
            }
            if let Some(client) = sbi.client {
                if let Some(nrf) = take_first(client.nrf) {
                    config.nrf_uri = nrf.uri;
                }
            }
        }
        config.apn_config_hash = match smf.apn_config_hash {
            Some(v) => v,
            None => Vec::new(),
        };
        config.urr_profile_hash = match smf.urr_profile_hash {
            Some(v) => v,
            None => Vec::new(),
        };
        config.feature_flags = match smf.feature_flags {
            Some(f) => f,
            None => FeatureFlagsConfig { usage_quota_enforcement: false },
        };
    }
    config
}

} // verus!
