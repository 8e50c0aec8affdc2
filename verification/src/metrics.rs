//! The metrics context: a wide, read-mostly record of device identity and
//! account binding, populated once at boot from extension queries and
//! persistent storage, with sentinel values where a source had nothing.

use vstd::prelude::*;
use crate::advertising::AccountSession;
use crate::kvlist::{kv_find, kv_get, kv_has, kv_idx, kv_unique, lemma_kv_remove, lemma_kv_update};
use crate::device::{
    first_policy_idx, first_tag_idx, has_policy_for, has_tag_for, DataEventType,
    DataGovernanceConfig, StorageProperty,
};

verus! {

/// The shared metrics context.
#[derive(Debug)]
pub struct MetricsContext {
    pub enabled: bool,
    pub mac_address: String,
    pub serial_number: String,
    pub device_model: String,
    pub device_language: String,
    pub os_name: String,
    pub os_ver: String,
    pub device_name: Option<String>,
    pub device_session_id: String,
    pub firmware: String,
    pub ripple_version: String,
    pub activated: Option<bool>,
    pub proposition: String,
    pub retailer: Option<String>,
    pub primary_provider: Option<String>,
    pub platform: String,
    pub coam: Option<bool>,
    pub country: Option<String>,
    pub region: Option<String>,
    pub account_type: Option<String>,
    pub operator: Option<String>,
    pub account_detail_type: Option<String>,
    pub device_type: String,
    pub device_manufacturer: String,
    pub authenticated: Option<bool>,
    pub data_governance_tags: Option<Vec<String>>,
    pub account_id: Option<String>,
    pub device_id: Option<String>,
    pub distribution_tenant_id: String,
}

impl MetricsContext {
    /// A context with every field empty or absent, sampling disabled.
    pub fn new() -> (r: Self)
        ensures
            !r.enabled,
            r.mac_address@.len() == 0,
            r.serial_number@.len() == 0,
            r.device_model@.len() == 0,
            r.device_language@.len() == 0,
            r.device_name is None,
            r.activated is None,
            r.retailer is None,
            r.primary_provider is None,
            r.coam is None,
            r.country is None,
            r.region is None,
            r.account_type is None,
            r.operator is None,
            r.account_detail_type is None,
            r.authenticated is None,
            r.data_governance_tags is None,
            r.account_id is None,
            r.device_id is None,
            r.distribution_tenant_id@.len() == 0,
    {
        MetricsContext {
            enabled: false,
            mac_address: String::new(),
            serial_number: String::new(),
            device_model: String::new(),
            device_language: String::new(),
            os_name: String::new(),
            os_ver: String::new(),
            device_name: None,
            device_session_id: String::new(),
            firmware: String::new(),
            ripple_version: String::new(),
            activated: None,
            proposition: String::new(),
            retailer: None,
            primary_provider: None,
            platform: String::new(),
            coam: None,
            country: None,
            region: None,
            account_type: None,
            operator: None,
            account_detail_type: None,
            device_type: String::new(),
            device_manufacturer: String::new(),
            authenticated: None,
            data_governance_tags: None,
            account_id: None,
            device_id: None,
            distribution_tenant_id: String::new(),
        }
    }
}

/// The sentinel for a field no source provided: the field's name followed
/// by `.unset`.
pub open spec fn spec_unset(s: Seq<char>) -> Seq<char> {
    s + ".unset"@
}

/// Builds the `<field>.unset` sentinel.
pub fn unset(s: &str) -> (r: String)
    ensures
        r@ == spec_unset(s@),
{
    let mut m = String::from_str(s);
    m.append(".unset");
    m
}

/// An empty string read from storage counts as absent.
pub fn get_option_string(s: String) -> (r: Option<String>)
    ensures
        match r {
            Some(v) => s@.len() != 0 && v == s,
            None => s@.len() == 0,
        },
{
    if !s.as_str().is_empty() {
        return Some(s);
    }
    None
}

/// Relies on rand's `random_range`: a uniform sample from the inclusive
/// range, which panics only on an empty range.
#[verifier::external_body]
fn random_in_range(lo: u32, hi: u32) -> (r: u32)
    requires
        lo <= hi,
    ensures
        lo <= r <= hi,
{
    rand::random_range(lo..=hi)
}

/// Whether a drawn sampling number enables metrics under the configured
/// percentage.
pub open spec fn sampling_enabled(rn: u32, percentage: u32) -> bool {
    rn <= percentage
}

/// Draws the boot-time sampling number, uniform over 1..=100.
pub fn metrics_random_number() -> (r: u32)
    ensures
        1 <= r <= 100,
{
    random_in_range(1, 100)
}

/// The subset of privacy settings that governance tags react to.
#[derive(Debug, Clone, Copy, PartialEq, Eq, Structural)]
pub struct PrivacySettingsData {
    pub allow_business_analytics: Option<bool>,
    pub allow_resume_points: Option<bool>,
    pub allow_personalization: Option<bool>,
    pub allow_product_analytics: Option<bool>,
}

/// The tags contributed by one privacy setting: when the setting is
/// allowed and the policy for its event family names the setting, that
/// entry's tags; otherwise nothing.
pub open spec fn tags_for(
    config: DataGovernanceConfig,
    allowed: Option<bool>,
    et: DataEventType,
    sp: StorageProperty,
) -> Seq<String> {
    if allowed == Some(true) && has_policy_for(config.policies@, et) && has_tag_for(
        config.policies@[first_policy_idx(config.policies@, et)].setting_tags@,
        sp,
    ) {
        let tags = config.policies@[first_policy_idx(config.policies@, et)].setting_tags@;
        tags[first_tag_idx(tags, sp)].tags@
    } else {
        Seq::<String>::empty()
    }
}

/// All governance tags, in the fixed order the settings are consulted.
pub open spec fn spec_governance_tags(
    config: DataGovernanceConfig,
    privacy: PrivacySettingsData,
) -> Seq<String> {
    tags_for(
        config,
        privacy.allow_business_analytics,
        DataEventType::BusinessIntelligence,
        StorageProperty::AllowBusinessAnalytics,
    ) + tags_for(
        config,
        privacy.allow_resume_points,
        DataEventType::Watched,
        StorageProperty::AllowWatchHistory,
    ) + tags_for(
        config,
        privacy.allow_personalization,
        DataEventType::BusinessIntelligence,
        StorageProperty::AllowPersonalization,
    ) + tags_for(
        config,
        privacy.allow_product_analytics,
        DataEventType::BusinessIntelligence,
        StorageProperty::AllowProductAnalytics,
    )
}

/// Appends the tags one privacy setting contributes.
fn append_tags(
    config: &DataGovernanceConfig,
    data: Option<bool>,
    tags: &mut Vec<String>,
    et: DataEventType,
    sp: StorageProperty,
)
    ensures
        final(tags)@ == old(tags)@ + tags_for(*config, data, et, sp),
{
    let proceed = match data {
        Some(true) => true,
        _ => false,
    };
    if proceed {
        if let Some(policy) = config.get_policy(et) {
            if let Some(setting_tag) = policy.find_setting_tag(sp) {
                let n = setting_tag.tags.len();
                let mut i: usize = 0;
                while i < n
                    invariant
                        n == setting_tag.tags@.len(),
                        i <= n,
                        tags@ == old(tags)@ + setting_tag.tags@.take(i as int),
                    decreases n - i,
                {
                    tags.push(setting_tag.tags[i].clone());
                    proof {
                        assert(setting_tag.tags@.take(i + 1 as int) =~= setting_tag.tags@.take(
                            i as int,
                        ).push(setting_tag.tags@[i as int]));
                    }
                    i = i + 1;
                }
                proof {
                    assert(setting_tag.tags@.take(n as int) =~= setting_tag.tags@);
                }
                return;
            }
        }
    }
    proof {
        assert(tags@ =~= old(tags)@ + tags_for(*config, data, et, sp));
    }
}

/// Firmware identity as the device extension reports it.
#[derive(Debug)]
pub struct FirmwareInfo {
    pub name: String,
    pub version: String,
}

/// Resolves a persistent-storage string read: a failed read or an empty
/// value counts as absent.
pub fn get_persistent_store_string(response: Result<String, crate::device::RippleError>) -> (r:
    Option<String>)
    ensures
        match response {
            Ok(s) => r == (if s@.len() != 0 {
                Some(s)
            } else {
                None
            }),
            Err(_) => r is None,
        },
{
    match response {
        Ok(s) => get_option_string(s),
        Err(_) => None,
    }
}

/// Resolves a persistent-storage boolean read: a failed read counts as
/// absent.
pub fn get_persistent_store_bool(response: Result<bool, crate::device::RippleError>) -> (r: Option<
    bool,
>)
    ensures
        match response {
            Ok(b) => r == Some(b),
            Err(_) => r is None,
        },
{
    match response {
        Ok(b) => Some(b),
        Err(_) => None,
    }
}

/// Resolves the firmware query: anything but a firmware reply is an
/// invalid output.
pub fn get_os_info_from_firebolt(response: Option<FirmwareInfo>) -> (r: Result<
    FirmwareInfo,
    crate::device::RippleError,
>)
    ensures
        match response {
            Some(info) => r == Ok::<FirmwareInfo, crate::device::RippleError>(info),
            None => r == Err::<FirmwareInfo, crate::device::RippleError>(
                crate::device::RippleError::InvalidOutput,
            ),
        },
{
    match response {
        Some(info) => Ok(info),
        None => Err(crate::device::RippleError::InvalidOutput),
    }
}

/// What a boot-time initialization gathered from extensions, internal
/// methods and persistent storage; `None` where a source had nothing.
#[derive(Debug)]
pub struct MetricsBootInputs {
    pub mac_address: Option<String>,
    pub serial_number: Option<String>,
    pub device_model: Option<String>,
    pub language: Option<String>,
    pub os_name: Option<String>,
    pub os_ver: Option<String>,
    pub device_name: Option<String>,
    pub firmware: Option<String>,
    pub proposition: Option<String>,
    pub retailer: Option<String>,
    pub primary_provider: Option<String>,
    pub coam: Option<bool>,
    pub country: Option<String>,
    pub region: Option<String>,
    pub account_type: Option<String>,
    pub operator: Option<String>,
    pub account_detail_type: Option<String>,
    pub device_type: Option<String>,
    pub device_manufacturer_store: Option<String>,
    pub device_make: Option<String>,
}

/// The metrics state: the shared context, the operational-telemetry
/// listeners, and per-request API statistics.
#[derive(Debug)]
pub struct MetricsState {
    pub context: MetricsContext,
    pub operational_telemetry_listeners: Vec<String>,
    pub api_stats_map: Vec<(String, ApiStats)>,
}

/// Timing splits of one in-flight API call.
#[derive(Debug)]
pub struct ApiStats {
    pub api: String,
    pub stats_ref: Option<String>,
    pub stages: Vec<(String, i64)>,
    pub last_stage_ts_ms: i64,
}

impl MetricsState {
    /// Request ids in the API statistics map are unique, and the listener
    /// list is a set: no target appears twice.
    pub open spec fn wf(self) -> bool {
        &&& kv_unique(self.api_stats_map@)
        &&& forall|i: int, j: int|
            0 <= i < j < self.operational_telemetry_listeners@.len() ==> (
            #[trigger] self.operational_telemetry_listeners@[i])@ != (
            #[trigger] self.operational_telemetry_listeners@[j])@
    }

    /// A fresh metrics state: empty context, no listeners, no statistics.
    pub fn new() -> (r: Self)
        ensures
            r.wf(),
            r.operational_telemetry_listeners@.len() == 0,
            r.api_stats_map@.len() == 0,
            !r.context.enabled,
    {
        MetricsState {
            context: MetricsContext::new(),
            operational_telemetry_listeners: Vec::new(),
            api_stats_map: Vec::new(),
        }
    }

    /// The current context, for reading and broadcasting.
    pub fn get_context(&self) -> (r: &MetricsContext)
        ensures
            *r == self.context,
    {
        &self.context
    }

    /// Populates the whole context in one step: the sampling decision from
    /// the drawn number against the configured percentage, each identity
    /// field from its source, and the documented sentinel where the source
    /// had nothing. The governance tags are left as they were.
    pub fn initialize(
        &mut self,
        percentage: u32,
        random_number: u32,
        device_session_id: String,
        version: Option<String>,
        form_factor: String,
        account_session: Option<AccountSession>,
        inputs: MetricsBootInputs,
    )
        requires
            1 <= random_number <= 100,
        ensures
            final(self).wf() == old(self).wf(),
            final(self).operational_telemetry_listeners == old(self).operational_telemetry_listeners,
            final(self).api_stats_map == old(self).api_stats_map,
            final(self).context.enabled == (random_number <= percentage),
            final(self).context.mac_address == match inputs.mac_address {
                Some(m) => m,
                None => old(self).context.mac_address,
            },
            final(self).context.serial_number == match inputs.serial_number {
                Some(s) => s,
                None => old(self).context.serial_number,
            },
            final(self).context.device_model == match inputs.device_model {
                Some(m) => m,
                None => old(self).context.device_model,
            },
            final(self).context.device_language@ == match inputs.language {
                Some(l) => l@,
                None => spec_unset("language"@),
            },
            final(self).context.os_name@ == match inputs.os_name {
                Some(n) => n@,
                None => spec_unset("os.name"@),
            },
            final(self).context.os_ver@ == match inputs.os_ver {
                Some(v) => v@,
                None => spec_unset("os.ver"@),
            },
            final(self).context.device_name matches Some(d) && d@ == (match inputs.device_name {
                Some(n) => n@,
                None => spec_unset("device.name"@),
            }),
            final(self).context.device_session_id == device_session_id,
            final(self).context.firmware@ == match inputs.firmware {
                Some(f) => f@,
                None => Seq::<char>::empty(),
            },
            final(self).context.ripple_version@ == match version {
                Some(v) => v@,
                None => spec_unset("ripple.version"@),
            },
            final(self).context.activated == Some(true),
            final(self).context.proposition@ == match inputs.proposition {
                Some(p) => p@,
                None => "Proposition.missing.from.persistent.store"@,
            },
            final(self).context.retailer == inputs.retailer,
            final(self).context.primary_provider == inputs.primary_provider,
            final(self).context.platform@ == final(self).context.proposition@,
            final(self).context.coam == inputs.coam,
            final(self).context.country == inputs.country,
            final(self).context.region == inputs.region,
            final(self).context.account_type == inputs.account_type,
            final(self).context.operator == inputs.operator,
            final(self).context.account_detail_type == inputs.account_detail_type,
            final(self).context.device_type@ == match inputs.device_type {
                Some(t) => t@,
                None => form_factor@,
            },
            final(self).context.device_manufacturer@ == match inputs.device_manufacturer_store {
                Some(s) => s@,
                None => match inputs.device_make {
                    Some(m) => m@,
                    None => spec_unset("device.make"@),
                },
            },
            final(self).context.authenticated == Some(true),
            final(self).context.data_governance_tags == old(self).context.data_governance_tags,
            match account_session {
                Some(s) => final(self).context.account_id == Some(s.account_id) && final(self).context.device_id == Some(s.device_id) && final(self).context.distribution_tenant_id
                    == s.id,
                None => final(self).context.account_id is None && final(self).context.device_id is None
                    && final(self).context.distribution_tenant_id@ == spec_unset(
                    "distribution_tenant_id"@,
                ),
            },
    {
        self.context.enabled = random_number <= percentage;
        if let Some(m) = inputs.mac_address {
            self.context.mac_address = m;
        }
        if let Some(s) = inputs.serial_number {
            self.context.serial_number = s;
        }
        if let Some(m) = inputs.device_model {
            self.context.device_model = m;
        }
        self.context.device_language = match inputs.language {
            Some(l) => l,
            None => unset("language"),
        };
        self.context.os_name = match inputs.os_name {
            Some(n) => n,
            None => unset("os.name"),
        };
        self.context.os_ver = match inputs.os_ver {
            Some(v) => v,
            None => unset("os.ver"),
        };
        self.context.device_name = Some(
            match inputs.device_name {
                Some(n) => n,
                None => unset("device.name"),
            },
        );
        self.context.device_session_id = device_session_id;
        self.context.firmware = match inputs.firmware {
            Some(f) => f,
            None => String::new(),
        };
        self.context.ripple_version = match version {
            Some(v) => v,
            None => unset("ripple.version"),
        };
        self.context.activated = Some(true);
        let proposition = match inputs.proposition {
            Some(p) => p,
            None => String::from_str("Proposition.missing.from.persistent.store"),
        };
        self.context.platform = proposition.clone();
        self.context.proposition = proposition;
        self.context.retailer = inputs.retailer;
        self.context.primary_provider = inputs.primary_provider;
        self.context.coam = inputs.coam;
        self.context.country = inputs.country;
        self.context.region = inputs.region;
        self.context.account_type = inputs.account_type;
        self.context.operator = inputs.operator;
        self.context.account_detail_type = inputs.account_detail_type;
        self.context.device_type = match inputs.device_type {
            Some(t) => t,
            None => form_factor,
        };
        self.context.device_manufacturer = match inputs.device_manufacturer_store {
            Some(s) => s,
            None => match inputs.device_make {
                Some(m) => m,
                None => unset("device.make"),
            },
        };
        self.context.authenticated = Some(true);
        self.update_account_session(account_session);
    }

    /// Rebinds the account identity fields of the context; with no session
    /// they fall back to absent values and the tenant sentinel. Nothing
    /// else changes.
    pub fn update_account_session(&mut self, account_session: Option<AccountSession>)
        ensures
            final(self).operational_telemetry_listeners == old(self).operational_telemetry_listeners,
            final(self).api_stats_map == old(self).api_stats_map,
            match account_session {
                Some(s) => final(self).context == (MetricsContext {
                    account_id: Some(s.account_id),
                    device_id: Some(s.device_id),
                    distribution_tenant_id: s.id,
                    ..old(self).context
                }),
                None => final(self).context.account_id is None && final(self).context.device_id is None
                    && final(self).context.distribution_tenant_id@ == spec_unset(
                    "distribution_tenant_id"@,
                ) && final(self).context == (MetricsContext {
                    account_id: None,
                    device_id: None,
                    distribution_tenant_id: final(self).context.distribution_tenant_id,
                    ..old(self).context
                }),
            },
    {
        match account_session {
            Some(s) => {
                self.context.account_id = Some(s.account_id);
                self.context.device_id = Some(s.device_id);
                self.context.distribution_tenant_id = s.id;
            },
            None => {
                self.context.account_id = None;
                self.context.device_id = None;
                self.context.distribution_tenant_id = unset("distribution_tenant_id");
            },
        }
    }

    /// Replaces the context's session id; an absent value empties it.
    pub fn update_session_id(&mut self, value: Option<String>)
        ensures
            final(self).operational_telemetry_listeners == old(self).operational_telemetry_listeners,
            final(self).api_stats_map == old(self).api_stats_map,
            final(self).context.device_session_id@ == match value {
                Some(v) => v@,
                None => Seq::<char>::empty(),
            },
            final(self).context == (MetricsContext {
                device_session_id: final(self).context.device_session_id,
                ..old(self).context
            }),
    {
        let v = match value {
            Some(v) => v,
            None => String::new(),
        };
        self.context.device_session_id = v;
    }

    /// Recomputes the governance tags from the current privacy settings:
    /// the union, in fixed order, of the tags each allowed setting's policy
    /// contributes; absent entirely when nothing contributes.
    pub fn update_data_governance_tags(
        &mut self,
        config: &DataGovernanceConfig,
        privacy_settings_data: &PrivacySettingsData,
    )
        ensures
            final(self).operational_telemetry_listeners == old(self).operational_telemetry_listeners,
            final(self).api_stats_map == old(self).api_stats_map,
            final(self).context == (MetricsContext {
                data_governance_tags: final(self).context.data_governance_tags,
                ..old(self).context
            }),
            match final(self).context.data_governance_tags {
                Some(v) => v@ == spec_governance_tags(*config, *privacy_settings_data) && v@.len()
                    > 0,
                None => spec_governance_tags(*config, *privacy_settings_data).len() == 0,
            },
    {
        let mut governance_tags: Vec<String> = Vec::new();
        append_tags(
            config,
            privacy_settings_data.allow_business_analytics,
            &mut governance_tags,
            DataEventType::BusinessIntelligence,
            StorageProperty::AllowBusinessAnalytics,
        );
        append_tags(
            config,
            privacy_settings_data.allow_resume_points,
            &mut governance_tags,
            DataEventType::Watched,
            StorageProperty::AllowWatchHistory,
        );
        append_tags(
            config,
            privacy_settings_data.allow_personalization,
            &mut governance_tags,
            DataEventType::BusinessIntelligence,
            StorageProperty::AllowPersonalization,
        );
        append_tags(
            config,
            privacy_settings_data.allow_product_analytics,
            &mut governance_tags,
            DataEventType::BusinessIntelligence,
            StorageProperty::AllowProductAnalytics,
        );
        self.context.data_governance_tags = if governance_tags.len() > 0 {
            Some(governance_tags)
        } else {
            None
        };
    }

    /// Subscribes or unsubscribes a target from operational telemetry.
    pub fn operational_telemetry_listener(&mut self, target: &str, listen: bool)
        requires
            old(self).wf(),
        ensures
            final(self).wf(),
            final(self).context == old(self).context,
            final(self).api_stats_map == old(self).api_stats_map,
            listen ==> crate::text::contains_str(
                final(self).operational_telemetry_listeners@,
                target@,
            ),
            listen && crate::text::contains_str(
                old(self).operational_telemetry_listeners@,
                target@,
            ) ==> final(self).operational_telemetry_listeners@ == old(self).operational_telemetry_listeners@,
            listen && !crate::text::contains_str(
                old(self).operational_telemetry_listeners@,
                target@,
            ) ==> final(self).operational_telemetry_listeners@.drop_last() == old(self).operational_telemetry_listeners@ && final(self).operational_telemetry_listeners@.last()@ == target@,
            !listen ==> final(self).operational_telemetry_listeners@ == remove_str(
                old(self).operational_telemetry_listeners@,
                target@,
            ),
    {
        if listen {
            if !crate::text::vec_contains_str(&self.operational_telemetry_listeners, target) {
                self.operational_telemetry_listeners.push(String::from_str(target));
                proof {
                    let s = self.operational_telemetry_listeners@;
                    assert(s[s.len() - 1]@ == target@);
                }
            }
        } else {
            proof {
                lemma_remove_str_unique(self.operational_telemetry_listeners@, target@);
            }
            let kept = remove_str_exec(&self.operational_telemetry_listeners, target);
            self.operational_telemetry_listeners = kept;
        }
    }

    /// The subscribed targets.
    pub fn get_listeners(&self) -> (r: Vec<String>)
        ensures
            r@ == self.operational_telemetry_listeners@,
    {
        clone_strings(&self.operational_telemetry_listeners)
    }
}

/// `a - b`, clamped to the `i64` range.
pub open spec fn spec_sat_sub_i64(a: int, b: int) -> int {
    if a - b < i64::MIN {
        i64::MIN as int
    } else if a - b > i64::MAX {
        i64::MAX as int
    } else {
        a - b
    }
}

pub fn sat_sub_i64(a: i64, b: i64) -> (r: i64)
    ensures
        r as int == spec_sat_sub_i64(a as int, b as int),
{
    if b >= 0 {
        if a >= i64::MIN + b {
            a - b
        } else {
            i64::MIN
        }
    } else {
        if a <= i64::MAX + b {
            a - b
        } else {
            i64::MAX
        }
    }
}

impl MetricsState {
    fn find_stats(&self, request_id: &str) -> (r: Option<usize>)
        requires
            self.wf(),
        ensures
            match r {
                Some(i) => i < self.api_stats_map@.len() && self.api_stats_map@[i as int].0@
                    == request_id@ && kv_has(self.api_stats_map@, request_id@) && kv_idx(
                    self.api_stats_map@,
                    request_id@,
                ) == i,
                None => !kv_has(self.api_stats_map@, request_id@),
            },
    {
        kv_find(&self.api_stats_map, request_id)
    }

    /// Starts tracking a request: fresh statistics for the API under the
    /// request id, replacing any record already there.
    pub fn add_api_stats(&mut self, request_id: &str, api: &str)
        requires
            old(self).wf(),
        ensures
            final(self).wf(),
            final(self).context == old(self).context,
            final(self).operational_telemetry_listeners == old(self).operational_telemetry_listeners,
            kv_has(final(self).api_stats_map@, request_id@),
            kv_get(final(self).api_stats_map@, request_id@).api@ == api@,
            kv_get(final(self).api_stats_map@, request_id@).stats_ref is None,
            kv_get(final(self).api_stats_map@, request_id@).stages@.len() == 0,
            forall|k: Seq<char>|
                k != request_id@ ==> kv_has(final(self).api_stats_map@, k) == kv_has(
                    old(self).api_stats_map@,
                    k,
                ),
            forall|k: Seq<char>|
                k != request_id@ && kv_has(old(self).api_stats_map@, k) ==> kv_get(
                    final(self).api_stats_map@,
                    k,
                ) == kv_get(old(self).api_stats_map@, k),
    {
        let fresh = ApiStats {
            api: String::from_str(api),
            stats_ref: None,
            stages: Vec::new(),
            last_stage_ts_ms: 0,
        };
        match self.find_stats(request_id) {
            Some(i) => {
                let ghost pre = self.api_stats_map@;
                let removed = self.api_stats_map.remove(i);
                let pair = (removed.0, fresh);
                self.api_stats_map.push(pair);
                proof {
                    lemma_kv_update(pre, self.api_stats_map@, i as int, pair);
                }
            },
            None => {
                let ghost pre = self.api_stats_map@;
                let pair = (String::from_str(request_id), fresh);
                self.api_stats_map.push(pair);
                proof {
                    lemma_kv_update(pre, self.api_stats_map@, pre.len() as int, pair);
                }
            },
        }
    }

    /// Stops tracking a request.
    pub fn remove_api_stats(&mut self, request_id: &str)
        requires
            old(self).wf(),
        ensures
            final(self).wf(),
            final(self).context == old(self).context,
            final(self).operational_telemetry_listeners == old(self).operational_telemetry_listeners,
            !kv_has(final(self).api_stats_map@, request_id@),
            forall|k: Seq<char>|
                k != request_id@ ==> kv_has(final(self).api_stats_map@, k) == kv_has(
                    old(self).api_stats_map@,
                    k,
                ),
            forall|k: Seq<char>|
                k != request_id@ && kv_has(old(self).api_stats_map@, k) ==> kv_get(
                    final(self).api_stats_map@,
                    k,
                ) == kv_get(old(self).api_stats_map@, k),
    {
        match self.find_stats(request_id) {
            Some(i) => {
                let ghost pre = self.api_stats_map@;
                let _ = self.api_stats_map.remove(i);
                proof {
                    lemma_kv_remove(pre, self.api_stats_map@, i as int);
                }
            },
            None => {},
        }
    }

    /// Points the tracked request at a new statistics reference; a request
    /// id not tracked changes nothing.
    pub fn update_api_stats_ref(&mut self, request_id: &str, stats_ref: Option<String>)
        requires
            old(self).wf(),
        ensures
            final(self).wf(),
            final(self).context == old(self).context,
            final(self).operational_telemetry_listeners == old(self).operational_telemetry_listeners,
            kv_has(final(self).api_stats_map@, request_id@) == kv_has(
                old(self).api_stats_map@,
                request_id@,
            ),
            kv_has(old(self).api_stats_map@, request_id@) ==> {
                let post = kv_get(final(self).api_stats_map@, request_id@);
                let pre = kv_get(old(self).api_stats_map@, request_id@);
                post.stats_ref == stats_ref && post.api == pre.api && post.stages == pre.stages
                    && post.last_stage_ts_ms == pre.last_stage_ts_ms
            },
            forall|k: Seq<char>|
                k != request_id@ ==> kv_has(final(self).api_stats_map@, k) == kv_has(
                    old(self).api_stats_map@,
                    k,
                ),
            forall|k: Seq<char>|
                k != request_id@ && kv_has(old(self).api_stats_map@, k) ==> kv_get(
                    final(self).api_stats_map@,
                    k,
                ) == kv_get(old(self).api_stats_map@, k),
    {
        match self.find_stats(request_id) {
            Some(i) => {
                let ghost pre = self.api_stats_map@;
                let removed = self.api_stats_map.remove(i);
                let mut st = removed.1;
                st.stats_ref = stats_ref;
                let pair = (removed.0, st);
                self.api_stats_map.push(pair);
                proof {
                    lemma_kv_update(pre, self.api_stats_map@, i as int, pair);
                }
            },
            None => {},
        }
    }

    /// Records a stage for the tracked request and returns the
    /// milliseconds since its previous stage (clamped to the `i64` range);
    /// a request id not tracked changes nothing and yields -1.
    pub fn update_api_stage(&mut self, request_id: &str, stage: &str, now_ms: i64) -> (r: i64)
        requires
            old(self).wf(),
        ensures
            final(self).wf(),
            final(self).context == old(self).context,
            final(self).operational_telemetry_listeners == old(self).operational_telemetry_listeners,
            kv_has(final(self).api_stats_map@, request_id@) == kv_has(
                old(self).api_stats_map@,
                request_id@,
            ),
            !kv_has(old(self).api_stats_map@, request_id@) ==> r == -1 && final(self).api_stats_map == old(self).api_stats_map,
            kv_has(old(self).api_stats_map@, request_id@) ==> {
                let post = kv_get(final(self).api_stats_map@, request_id@);
                let pre = kv_get(old(self).api_stats_map@, request_id@);
                r as int == spec_sat_sub_i64(now_ms as int, pre.last_stage_ts_ms as int)
                    && post.api == pre.api && post.stats_ref == pre.stats_ref
                    && post.last_stage_ts_ms == now_ms && post.stages@.len() == pre.stages@.len()
                    + 1 && post.stages@.drop_last() == pre.stages@ && post.stages@.last().0@
                    == stage@ && post.stages@.last().1 == r
            },
            forall|k: Seq<char>|
                k != request_id@ ==> kv_has(final(self).api_stats_map@, k) == kv_has(
                    old(self).api_stats_map@,
                    k,
                ),
            forall|k: Seq<char>|
                k != request_id@ && kv_has(old(self).api_stats_map@, k) ==> kv_get(
                    final(self).api_stats_map@,
                    k,
                ) == kv_get(old(self).api_stats_map@, k),
    {
        match self.find_stats(request_id) {
            Some(i) => {
                let ghost pre = self.api_stats_map@;
                let removed = self.api_stats_map.remove(i);
                let mut st = removed.1;
                let delta = sat_sub_i64(now_ms, st.last_stage_ts_ms);
                let entry = (String::from_str(stage), delta);
                st.stages.push(entry);
                st.last_stage_ts_ms = now_ms;
                let pair = (removed.0, st);
                self.api_stats_map.push(pair);
                proof {
                    lemma_kv_update(pre, self.api_stats_map@, i as int, pair);
                }
                delta
            },
            None => -1,
        }
    }

    /// The statistics tracked under the request id.
    pub fn get_api_stats(&self, request_id: &str) -> (r: Option<&ApiStats>)
        requires
            self.wf(),
        ensures
            match r {
                Some(s) => kv_has(self.api_stats_map@, request_id@) && *s == kv_get(
                    self.api_stats_map@,
                    request_id@,
                ),
                None => !kv_has(self.api_stats_map@, request_id@),
            },
    {
        match self.find_stats(request_id) {
            Some(i) => Some(&self.api_stats_map[i].1),
            None => None,
        }
    }
}

/// `s` without the strings reading as `x`.
pub open spec fn remove_str(s: Seq<String>, x: Seq<char>) -> Seq<String>
    decreases s.len(),
{
    if s.len() == 0 {
        Seq::<String>::empty()
    } else {
        let rest = remove_str(s.drop_last(), x);
        if s.last()@ == x {
            rest
        } else {
            rest.push(s.last())
        }
    }
}

/// Removal keeps the list a set: every kept string comes from the list,
/// and distinct entries stay distinct.
proof fn lemma_remove_str_unique(s: Seq<String>, x: Seq<char>)
    requires
        forall|i: int, j: int| 0 <= i < j < s.len() ==> (#[trigger] s[i])@ != (#[trigger] s[j])@,
    ensures
        forall|i: int|
            0 <= i < remove_str(s, x).len() ==> exists|j: int|
                0 <= j < s.len() && (#[trigger] remove_str(s, x)[i]) == s[j],
        forall|i: int, j: int|
            0 <= i < j < remove_str(s, x).len() ==> (#[trigger] remove_str(s, x)[i])@ != (
            #[trigger] remove_str(s, x)[j])@,
    decreases s.len(),
{
    if s.len() > 0 {
        assert(forall|i: int| 0 <= i < s.len() - 1 ==> (#[trigger] s.drop_last()[i]) == s[i]);
        lemma_remove_str_unique(s.drop_last(), x);
        let r = remove_str(s, x);
        let rd = remove_str(s.drop_last(), x);
        assert forall|i: int| 0 <= i < r.len() implies exists|j: int|
            0 <= j < s.len() && (#[trigger] r[i]) == s[j] by {
            if s.last()@ != x && i == r.len() - 1 {
                assert(r[i] == s[s.len() - 1]);
            } else {
                assert(r[i] == rd[i]);
                let j = choose|j: int|
                    0 <= j < s.drop_last().len() && (#[trigger] rd[i]) == s.drop_last()[j];
                assert(s.drop_last()[j] == s[j]);
            }
        }
        assert forall|i: int, j: int| 0 <= i < j < r.len() implies (#[trigger] r[i])@ != (
        #[trigger] r[j])@ by {
            if s.last()@ != x && j == r.len() - 1 {
                assert(r[i] == rd[i]);
                let m = choose|m: int|
                    0 <= m < s.drop_last().len() && (#[trigger] rd[i]) == s.drop_last()[m];
                assert(s[m]@ != s[s.len() - 1]@);
            } else {
                assert(r[i] == rd[i]);
                assert(r[j] == rd[j]);
            }
        }
    }
}

/// Copies the strings not reading as `x`.
fn remove_str_exec(v: &Vec<String>, x: &str) -> (r: Vec<String>)
    ensures
        r@ == remove_str(v@, x@),
{
    let n = v.len();
    let mut r: Vec<String> = Vec::new();
    let mut i: usize = 0;
    while i < n
        invariant
            n == v@.len(),
            i <= n,
            r@ == remove_str(v@.take(i as int), x@),
        decreases n - i,
    {
        if !crate::text::str_eq(v[i].as_str(), x) {
            r.push(v[i].clone());
        }
        proof {
            assert(v@.take(i + 1 as int).drop_last() =~= v@.take(i as int));
            assert(v@.take(i + 1 as int).last() == v@[i as int]);
        }
        i = i + 1;
    }
    proof {
        assert(v@.take(n as int) =~= v@);
    }
    r
}

/// Copies a list of strings.
pub fn clone_strings(v: &Vec<String>) -> (r: Vec<String>)
    ensures
        r@ == v@,
{
    let n = v.len();
    let mut r: Vec<String> = Vec::new();
    let mut i: usize = 0;
    while i < n
        invariant
            n == v@.len(),
            i <= n,
            r@ == v@.take(i as int),
        decreases n - i,
    {
        r.push(v[i].clone());
        proof {
            assert(v@.take(i + 1 as int) =~= v@.take(i as int).push(v@[i as int]));
        }
        i = i + 1;
    }
    proof {
        assert(v@.take(n as int) =~= v@);
    }
    r
}

} // verus!
