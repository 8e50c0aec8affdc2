//! The device manifest as the gateway reads it: the capability and
//! data-governance configuration, plus the bootstrap step that picks the
//! first manifest a loader produced.

use vstd::prelude::*;

verus! {

/// The gateway's error taxonomy for recoverable and bootstrap failures.
#[derive(Debug, Clone, Copy, PartialEq, Eq, Structural)]
pub enum RippleError {
    MissingInput,
    InvalidOutput,
    ParseError,
    BootstrapError,
}

/// The privacy-relevant event families governance policies are keyed by.
#[derive(Debug, Clone, Copy, PartialEq, Eq, Structural)]
pub enum DataEventType {
    Watched,
    BusinessIntelligence,
}

/// The persisted privacy settings governance tags are matched against.
#[derive(Debug, Clone, Copy, PartialEq, Eq, Structural)]
pub enum StorageProperty {
    AllowBusinessAnalytics,
    AllowWatchHistory,
    AllowPersonalization,
    AllowProductAnalytics,
    Locality,
}

/// The tags configured for one privacy setting.
#[derive(Debug)]
pub struct SettingTag {
    pub setting: StorageProperty,
    pub tags: Vec<String>,
}

/// One governance policy: for an event family, the tags per setting.
#[derive(Debug)]
pub struct DataGovernancePolicy {
    pub event_type: DataEventType,
    pub setting_tags: Vec<SettingTag>,
}

/// The configured governance policies.
#[derive(Debug)]
pub struct DataGovernanceConfig {
    pub policies: Vec<DataGovernancePolicy>,
}

/// Whether a policy for the event family is configured.
pub open spec fn has_policy_for(s: Seq<DataGovernancePolicy>, t: DataEventType) -> bool {
    exists|i: int| 0 <= i < s.len() && (#[trigger] s[i]).event_type == t
}

/// The index of the first policy for the event family.
pub open spec fn first_policy_idx(s: Seq<DataGovernancePolicy>, t: DataEventType) -> int
    decreases s.len(),
{
    if s.len() == 0 {
        0
    } else if s[0].event_type == t {
        0
    } else {
        1 + first_policy_idx(s.skip(1), t)
    }
}

impl DataGovernanceConfig {
    /// The first policy configured for the event family, when any is.
    pub fn get_policy(&self, data_type: DataEventType) -> (r: Option<&DataGovernancePolicy>)
        ensures
            match r {
                Some(p) => has_policy_for(self.policies@, data_type) && *p
                    == self.policies@[first_policy_idx(self.policies@, data_type)],
                None => !has_policy_for(self.policies@, data_type),
            },
    {
        let n = self.policies.len();
        let mut i: usize = 0;
        while i < n
            invariant
                n == self.policies@.len(),
                i <= n,
                forall|k: int| 0 <= k < i ==> (#[trigger] self.policies@[k]).event_type != data_type,
            decreases n - i,
        {
            if self.policies[i].event_type == data_type {
                proof {
                    lemma_first_policy_idx(self.policies@, data_type, i as int);
                }
                return Some(&self.policies[i]);
            }
            i = i + 1;
        }
        None
    }
}

/// When `i` is the first index whose policy covers `t`, `first_policy_idx`
/// picks `i`.
proof fn lemma_first_policy_idx(s: Seq<DataGovernancePolicy>, t: DataEventType, i: int)
    requires
        0 <= i < s.len(),
        s[i].event_type == t,
        forall|k: int| 0 <= k < i ==> (#[trigger] s[k]).event_type != t,
    ensures
        first_policy_idx(s, t) == i,
    decreases i,
{
    if i > 0 {
        assert(forall|k: int| 0 <= k < i - 1 ==> s.skip(1)[k] == s[k + 1]);
        lemma_first_policy_idx(s.skip(1), t, i - 1);
    }
}

/// Whether some tag entry is configured for the setting.
pub open spec fn has_tag_for(s: Seq<SettingTag>, prop: StorageProperty) -> bool {
    exists|i: int| 0 <= i < s.len() && (#[trigger] s[i]).setting == prop
}

/// The index of the first tag entry for the setting.
pub open spec fn first_tag_idx(s: Seq<SettingTag>, prop: StorageProperty) -> int
    decreases s.len(),
{
    if s.len() == 0 {
        0
    } else if s[0].setting == prop {
        0
    } else {
        1 + first_tag_idx(s.skip(1), prop)
    }
}

impl DataGovernancePolicy {
    /// The first tag entry configured for the setting, when any is.
    pub fn find_setting_tag(&self, prop: StorageProperty) -> (r: Option<&SettingTag>)
        ensures
            match r {
                Some(t) => has_tag_for(self.setting_tags@, prop) && *t
                    == self.setting_tags@[first_tag_idx(self.setting_tags@, prop)],
                None => !has_tag_for(self.setting_tags@, prop),
            },
    {
        let n = self.setting_tags.len();
        let mut i: usize = 0;
        while i < n
            invariant
                n == self.setting_tags@.len(),
                i <= n,
                forall|k: int| 0 <= k < i ==> (#[trigger] self.setting_tags@[k]).setting != prop,
            decreases n - i,
        {
            if self.setting_tags[i].setting == prop {
                proof {
                    lemma_first_tag_idx(self.setting_tags@, prop, i as int);
                }
                return Some(&self.setting_tags[i]);
            }
            i = i + 1;
        }
        None
    }
}

/// When `i` is the first index whose tag entry covers `prop`,
/// `first_tag_idx` picks `i`.
proof fn lemma_first_tag_idx(s: Seq<SettingTag>, prop: StorageProperty, i: int)
    requires
        0 <= i < s.len(),
        s[i].setting == prop,
        forall|k: int| 0 <= k < i ==> (#[trigger] s[k]).setting != prop,
    ensures
        first_tag_idx(s, prop) == i,
    decreases i,
{
    if i > 0 {
        assert(forall|k: int| 0 <= k < i - 1 ==> s.skip(1)[k] == s[k + 1]);
        lemma_first_tag_idx(s.skip(1), prop, i - 1);
    }
}

/// What the gateway reads from the device manifest.
#[derive(Debug)]
pub struct DeviceManifest {
    pub metrics_logging_percentage: u32,
    pub form_factor: String,
    pub data_governance: DataGovernanceConfig,
    pub supported_caps: Vec<String>,
    pub grant_policies: Vec<String>,
}

impl DeviceManifest {
    /// The device's form factor, as configured.
    pub fn get_form_factor(&self) -> (r: String)
        ensures
            r@ == self.form_factor@,
    {
        self.form_factor.clone()
    }
}

/// The bootstrap step that obtains the device manifest. The file reads
/// themselves happen at the edge; this step picks among their outcomes, in
/// the order the loaders were tried.
pub struct LoadDeviceManifestStep;

impl LoadDeviceManifestStep {
    /// The first manifest a loader produced. A boot without any manifest
    /// cannot proceed, so the caller must have one.
    pub fn get_manifest(loaded: Vec<Option<DeviceManifest>>) -> (r: DeviceManifest)
        requires
            exists|i: int| 0 <= i < loaded@.len() && (#[trigger] loaded@[i]) is Some,
        ensures
            exists|i: int|
                0 <= i < loaded@.len() && (#[trigger] loaded@[i]) == Some(r) && forall|j: int|
                    0 <= j < i ==> loaded@[j] is None,
    {
        let r = try_manifest_files(loaded);
        match r {
            Ok(m) => m,
            Err(_) => {
                proof {
                    assert(false);
                }
                DeviceManifest {
                    metrics_logging_percentage: 0,
                    form_factor: String::new(),
                    data_governance: DataGovernanceConfig { policies: Vec::new() },
                    supported_caps: Vec::new(),
                    grant_policies: Vec::new(),
                }
            },
        }
    }
}

/// The first manifest a loader produced, or a bootstrap error when every
/// loader failed.
#[verifier::loop_isolation(false)]
pub fn try_manifest_files(loaded: Vec<Option<DeviceManifest>>) -> (r: Result<
    DeviceManifest,
    RippleError,
>)
    ensures
        r is Ok <==> exists|i: int| 0 <= i < loaded@.len() && (#[trigger] loaded@[i]) is Some,
        r matches Ok(m) ==> exists|i: int|
            0 <= i < loaded@.len() && (#[trigger] loaded@[i]) == Some(m) && forall|j: int|
                0 <= j < i ==> loaded@[j] is None,
        r matches Err(e) ==> e == RippleError::BootstrapError,
{
    let n = loaded.len();
    let mut items = loaded;
    let ghost orig = items@;
    let mut i: usize = 0;
    while i < n
        invariant
            n == orig.len(),
            items@ == orig,
            i <= n,
            forall|j: int| 0 <= j < i ==> (#[trigger] orig[j]) is None,
        decreases n - i,
    {
        if items[i].is_some() {
            let item = items.remove(i);
            match item {
                Some(m) => {
                    proof {
                        assert(orig[i as int] == Some(m));
                        assert(forall|j: int| 0 <= j < i ==> (#[trigger] orig[j]) is None);
                    }
                    return Ok(m);
                },
                None => {},
            }
        }
        i = i + 1;
    }
    Err(RippleError::BootstrapError)
}

} // verus!
