//! The distributor's privacy store: the named privacy settings, the
//! per-app data-collection and entitlement maps, and the request processor
//! that answers get, set and get-all over them.

use vstd::prelude::*;
use crate::kvlist::{kv_find, kv_get, kv_has, kv_unique, lemma_kv_update};

verus! {

/// The named privacy settings; every one starts disallowed.
#[derive(Debug, Clone, Copy, PartialEq, Eq, Structural)]
pub struct PrivacySettings {
    pub allow_acr_collection: bool,
    pub allow_resume_points: bool,
    pub allow_unentitled_resume_points: bool,
    pub allow_watch_history: bool,
    pub allow_product_analytics: bool,
    pub allow_personalization: bool,
    pub allow_unentitled_personalization: bool,
    pub allow_remote_diagnostics: bool,
    pub allow_primary_content_ad_targeting: bool,
    pub allow_primary_browse_ad_targeting: bool,
    pub allow_app_content_ad_targeting: bool,
    pub allow_camera_analytics: bool,
}

impl PrivacySettings {
    /// Every setting disallowed.
    pub fn new() -> (r: Self)
        ensures
            !r.allow_acr_collection,
            !r.allow_resume_points,
            !r.allow_unentitled_resume_points,
            !r.allow_watch_history,
            !r.allow_product_analytics,
            !r.allow_personalization,
            !r.allow_unentitled_personalization,
            !r.allow_remote_diagnostics,
            !r.allow_primary_content_ad_targeting,
            !r.allow_primary_browse_ad_targeting,
            !r.allow_app_content_ad_targeting,
            !r.allow_camera_analytics,
    {
        PrivacySettings {
            allow_acr_collection: false,
            allow_resume_points: false,
            allow_unentitled_resume_points: false,
            allow_watch_history: false,
            allow_product_analytics: false,
            allow_personalization: false,
            allow_unentitled_personalization: false,
            allow_remote_diagnostics: false,
            allow_primary_content_ad_targeting: false,
            allow_primary_browse_ad_targeting: false,
            allow_app_content_ad_targeting: false,
            allow_camera_analytics: false,
        }
    }
}

/// One addressable privacy property.
#[derive(Debug)]
pub enum PrivacySetting {
    AppDataCollection(String),
    AppEntitlementCollection(String),
    ContinueWatching,
    UnentitledContinueWatching,
    WatchHistory,
    ProductAnalytics,
    Personalization,
    UnentitledPersonalization,
    RemoteDiagnostics,
    PrimaryContentAdTargeting,
    PrimaryBrowseAdTargeting,
    AppContentAdTargeting,
    Acr,
    CameraAnalytics,
}

#[derive(Debug)]
pub struct GetPropertyParams {
    pub setting: PrivacySetting,
}

#[derive(Debug)]
pub struct SetPropertyParams {
    pub setting: PrivacySetting,
    pub value: bool,
}

/// The requests the processor accepts.
#[derive(Debug)]
pub enum PrivacyRequest {
    GetProperty(GetPropertyParams),
    SetProperty(SetPropertyParams),
    GetProperties,
}

/// The replies the processor sends back.
#[derive(Debug)]
pub enum PrivacyResponse {
    Boolean(bool),
    Settings(PrivacySettings),
    Ack,
}

/// The persisted privacy data: the named settings plus the per-app
/// data-collection and entitlement maps, keyed by app id.
#[derive(Debug)]
pub struct PrivacyData {
    pub settings: PrivacySettings,
    pub data_collection: Vec<(String, bool)>,
    pub entitlement: Vec<(String, bool)>,
}

/// A map read defaults to disallowed for an unknown app.
pub open spec fn kv_get_or_false(s: Seq<(String, bool)>, key: Seq<char>) -> bool {
    kv_has(s, key) && kv_get(s, key)
}

/// What reading one property yields from the data.
pub open spec fn spec_get_property(data: PrivacyData, setting: PrivacySetting) -> bool {
    match setting {
        PrivacySetting::AppDataCollection(a) => kv_get_or_false(data.data_collection@, a@),
        PrivacySetting::AppEntitlementCollection(e) => kv_get_or_false(data.entitlement@, e@),
        PrivacySetting::ContinueWatching => data.settings.allow_resume_points,
        PrivacySetting::UnentitledContinueWatching => data.settings.allow_unentitled_resume_points,
        PrivacySetting::WatchHistory => data.settings.allow_watch_history,
        PrivacySetting::ProductAnalytics => data.settings.allow_product_analytics,
        PrivacySetting::Personalization => data.settings.allow_personalization,
        PrivacySetting::UnentitledPersonalization => data.settings.allow_unentitled_personalization,
        PrivacySetting::RemoteDiagnostics => data.settings.allow_remote_diagnostics,
        PrivacySetting::PrimaryContentAdTargeting => data.settings.allow_primary_content_ad_targeting,
        PrivacySetting::PrimaryBrowseAdTargeting => data.settings.allow_primary_browse_ad_targeting,
        PrivacySetting::AppContentAdTargeting => data.settings.allow_app_content_ad_targeting,
        PrivacySetting::Acr => data.settings.allow_acr_collection,
        PrivacySetting::CameraAnalytics => data.settings.allow_camera_analytics,
    }
}

/// What writing one named setting does to the settings record; the two
/// app-scoped variants are handled by the maps instead and leave it alone.
pub open spec fn spec_set_setting(pre: PrivacySettings, setting: PrivacySetting, v: bool) -> PrivacySettings {
    match setting {
        PrivacySetting::ContinueWatching => PrivacySettings { allow_resume_points: v, ..pre },
        PrivacySetting::UnentitledContinueWatching => PrivacySettings {
            allow_unentitled_resume_points: v,
            ..pre
        },
        PrivacySetting::WatchHistory => PrivacySettings { allow_watch_history: v, ..pre },
        PrivacySetting::ProductAnalytics => PrivacySettings { allow_product_analytics: v, ..pre },
        PrivacySetting::Personalization => PrivacySettings { allow_personalization: v, ..pre },
        PrivacySetting::UnentitledPersonalization => PrivacySettings {
            allow_unentitled_personalization: v,
            ..pre
        },
        PrivacySetting::RemoteDiagnostics => PrivacySettings { allow_remote_diagnostics: v, ..pre },
        PrivacySetting::PrimaryContentAdTargeting => PrivacySettings {
            allow_primary_content_ad_targeting: v,
            ..pre
        },
        PrivacySetting::PrimaryBrowseAdTargeting => PrivacySettings {
            allow_primary_browse_ad_targeting: v,
            ..pre
        },
        PrivacySetting::AppContentAdTargeting => PrivacySettings {
            allow_app_content_ad_targeting: v,
            ..pre
        },
        PrivacySetting::Acr => PrivacySettings { allow_acr_collection: v, ..pre },
        PrivacySetting::CameraAnalytics => PrivacySettings { allow_camera_analytics: v, ..pre },
        _ => pre,
    }
}

impl PrivacyData {
    /// Both maps are keyed uniquely.
    pub open spec fn wf(self) -> bool {
        kv_unique(self.data_collection@) && kv_unique(self.entitlement@)
    }

    /// Fresh data: defaults everywhere, empty maps.
    pub fn new() -> (r: Self)
        ensures
            r.wf(),
            r.settings == (PrivacySettings {
                allow_acr_collection: false,
                allow_resume_points: false,
                allow_unentitled_resume_points: false,
                allow_watch_history: false,
                allow_product_analytics: false,
                allow_personalization: false,
                allow_unentitled_personalization: false,
                allow_remote_diagnostics: false,
                allow_primary_content_ad_targeting: false,
                allow_primary_browse_ad_targeting: false,
                allow_app_content_ad_targeting: false,
                allow_camera_analytics: false,
            }),
            r.data_collection@.len() == 0,
            r.entitlement@.len() == 0,
    {
        PrivacyData {
            settings: PrivacySettings::new(),
            data_collection: Vec::new(),
            entitlement: Vec::new(),
        }
    }

    /// Whether data collection is allowed for the app; unknown apps are
    /// disallowed.
    pub fn get_data_collections(&self, id: String) -> (r: bool)
        requires
            self.wf(),
        ensures
            r == kv_get_or_false(self.data_collection@, id@),
    {
        match kv_find(&self.data_collection, id.as_str()) {
            Some(i) => self.data_collection[i].1,
            None => false,
        }
    }

    /// Whether entitlement collection is allowed for the app.
    pub fn get_ent_collections(&self, id: String) -> (r: bool)
        requires
            self.wf(),
        ensures
            r == kv_get_or_false(self.entitlement@, id@),
    {
        match kv_find(&self.entitlement, id.as_str()) {
            Some(i) => self.entitlement[i].1,
            None => false,
        }
    }

    /// Records the app's data-collection consent.
    pub fn set_data_collections(&mut self, id: String, data: bool)
        requires
            old(self).wf(),
        ensures
            final(self).wf(),
            final(self).settings == old(self).settings,
            final(self).entitlement == old(self).entitlement,
            kv_get_or_false(final(self).data_collection@, id@) == data,
            forall|k: Seq<char>|
                k != id@ ==> kv_get_or_false(final(self).data_collection@, k) == kv_get_or_false(
                    old(self).data_collection@,
                    k,
                ),
    {
        let ghost pre = self.data_collection@;
        match kv_find(&self.data_collection, id.as_str()) {
            Some(i) => {
                let removed = self.data_collection.remove(i);
                let pair = (removed.0, data);
                self.data_collection.push(pair);
                proof {
                    lemma_kv_update(pre, self.data_collection@, i as int, pair);
                }
            },
            None => {
                let pair = (id, data);
                self.data_collection.push(pair);
                proof {
                    lemma_kv_update(pre, self.data_collection@, pre.len() as int, pair);
                }
            },
        }
    }

    /// Records the app's entitlement-collection consent.
    pub fn set_ent_collections(&mut self, id: String, data: bool)
        requires
            old(self).wf(),
        ensures
            final(self).wf(),
            final(self).settings == old(self).settings,
            final(self).data_collection == old(self).data_collection,
            kv_get_or_false(final(self).entitlement@, id@) == data,
            forall|k: Seq<char>|
                k != id@ ==> kv_get_or_false(final(self).entitlement@, k) == kv_get_or_false(
                    old(self).entitlement@,
                    k,
                ),
    {
        let ghost pre = self.entitlement@;
        match kv_find(&self.entitlement, id.as_str()) {
            Some(i) => {
                let removed = self.entitlement.remove(i);
                let pair = (removed.0, data);
                self.entitlement.push(pair);
                proof {
                    lemma_kv_update(pre, self.entitlement@, i as int, pair);
                }
            },
            None => {
                let pair = (id, data);
                self.entitlement.push(pair);
                proof {
                    lemma_kv_update(pre, self.entitlement@, pre.len() as int, pair);
                }
            },
        }
    }

    /// Writes one named setting; app-scoped variants change nothing here.
    #[verifier::rlimit(100)]
    pub fn set_setting(&mut self, setting: PrivacySetting, data: bool)
        ensures
            final(self).settings == spec_set_setting(old(self).settings, setting, data),
            final(self).data_collection == old(self).data_collection,
            final(self).entitlement == old(self).entitlement,
    {
        let pre = self.settings;
        match &setting {
            PrivacySetting::ContinueWatching => {
                self.settings = PrivacySettings { allow_resume_points: data, ..pre };
            },
            PrivacySetting::UnentitledContinueWatching => {
                self.settings = PrivacySettings { allow_unentitled_resume_points: data, ..pre };
            },
            PrivacySetting::WatchHistory => {
                self.settings = PrivacySettings { allow_watch_history: data, ..pre };
            },
            PrivacySetting::ProductAnalytics => {
                self.settings = PrivacySettings { allow_product_analytics: data, ..pre };
            },
            PrivacySetting::Personalization => {
                self.settings = PrivacySettings { allow_personalization: data, ..pre };
            },
            PrivacySetting::UnentitledPersonalization => {
                self.settings = PrivacySettings { allow_unentitled_personalization: data, ..pre };
            },
            PrivacySetting::RemoteDiagnostics => {
                self.settings = PrivacySettings { allow_remote_diagnostics: data, ..pre };
            },
            PrivacySetting::PrimaryContentAdTargeting => {
                self.settings = PrivacySettings {
                    allow_primary_content_ad_targeting: data,
                    ..pre
                };
            },
            PrivacySetting::PrimaryBrowseAdTargeting => {
                self.settings = PrivacySettings {
                    allow_primary_browse_ad_targeting: data,
                    ..pre
                };
            },
            PrivacySetting::AppContentAdTargeting => {
                self.settings = PrivacySettings { allow_app_content_ad_targeting: data, ..pre };
            },
            PrivacySetting::Acr => {
                self.settings = PrivacySettings { allow_acr_collection: data, ..pre };
            },
            PrivacySetting::CameraAnalytics => {
                self.settings = PrivacySettings { allow_camera_analytics: data, ..pre };
            },
            _ => {},
        }
    }
}

/// The privacy store as the processor holds it; persistence wraps it at
/// the edge.
#[derive(Debug)]
pub struct PrivacyState {
    pub privacy_data: PrivacyData,
}

impl PrivacyState {
    /// Wraps loaded (or fresh) privacy data.
    pub fn new(privacy_data: PrivacyData) -> (r: Self)
        ensures
            r.privacy_data == privacy_data,
    {
        PrivacyState { privacy_data }
    }

    /// Reads one property.
    pub fn get_property(&self, params: GetPropertyParams) -> (r: bool)
        requires
            self.privacy_data.wf(),
        ensures
            r == spec_get_property(self.privacy_data, params.setting),
    {
        match params.setting {
            PrivacySetting::AppDataCollection(a) => self.privacy_data.get_data_collections(a),
            PrivacySetting::AppEntitlementCollection(e) => self.privacy_data.get_ent_collections(e),
            PrivacySetting::ContinueWatching => self.privacy_data.settings.allow_resume_points,
            PrivacySetting::UnentitledContinueWatching => {
                self.privacy_data.settings.allow_unentitled_resume_points
            },
            PrivacySetting::WatchHistory => self.privacy_data.settings.allow_watch_history,
            PrivacySetting::ProductAnalytics => self.privacy_data.settings.allow_product_analytics,
            PrivacySetting::Personalization => self.privacy_data.settings.allow_personalization,
            PrivacySetting::UnentitledPersonalization => {
                self.privacy_data.settings.allow_unentitled_personalization
            },
            PrivacySetting::RemoteDiagnostics => {
                self.privacy_data.settings.allow_remote_diagnostics
            },
            PrivacySetting::PrimaryContentAdTargeting => {
                self.privacy_data.settings.allow_primary_content_ad_targeting
            },
            PrivacySetting::PrimaryBrowseAdTargeting => {
                self.privacy_data.settings.allow_primary_browse_ad_targeting
            },
            PrivacySetting::AppContentAdTargeting => {
                self.privacy_data.settings.allow_app_content_ad_targeting
            },
            PrivacySetting::Acr => self.privacy_data.settings.allow_acr_collection,
            PrivacySetting::CameraAnalytics => self.privacy_data.settings.allow_camera_analytics,
        }
    }

    /// Writes one property; always reports an unchanged-store signal as the
    /// processor expects.
    #[verifier::rlimit(100)]
    #[verifier::spinoff_prover]
    pub fn set_property(&mut self, params: SetPropertyParams) -> (r: bool)
        requires
            old(self).privacy_data.wf(),
        ensures
            final(self).privacy_data.wf(),
            !r,
            params.setting matches PrivacySetting::AppDataCollection(a) ==> kv_get_or_false(
                final(self).privacy_data.data_collection@,
                a@,
            ) == params.value && final(self).privacy_data.settings == old(self).privacy_data.settings && final(self).privacy_data.entitlement == old(self).privacy_data.entitlement
                && forall|k: Seq<char>|
                k != a@ ==> kv_get_or_false(final(self).privacy_data.data_collection@, k)
                    == kv_get_or_false(old(self).privacy_data.data_collection@, k),
            params.setting matches PrivacySetting::AppEntitlementCollection(e) ==> kv_get_or_false(
                final(self).privacy_data.entitlement@,
                e@,
            ) == params.value && final(self).privacy_data.settings == old(self).privacy_data.settings && final(self).privacy_data.data_collection == old(self).privacy_data.data_collection
                && forall|k: Seq<char>|
                k != e@ ==> kv_get_or_false(final(self).privacy_data.entitlement@, k)
                    == kv_get_or_false(old(self).privacy_data.entitlement@, k),
            !(params.setting matches PrivacySetting::AppDataCollection(_)) && !(
            params.setting matches PrivacySetting::AppEntitlementCollection(_)) ==> final(self).privacy_data.settings == spec_set_setting(
                old(self).privacy_data.settings,
                params.setting,
                params.value,
            ) && final(self).privacy_data.data_collection == old(self).privacy_data.data_collection
                && final(self).privacy_data.entitlement == old(self).privacy_data.entitlement,
    {
        match params.setting {
            PrivacySetting::AppDataCollection(a) => {
                self.privacy_data.set_data_collections(a, params.value);
            },
            PrivacySetting::AppEntitlementCollection(e) => {
                self.privacy_data.set_ent_collections(e, params.value);
            },
            setting => {
                self.privacy_data.set_setting(setting, params.value);
            },
        }
        false
    }

    /// The whole settings record.
    pub fn get_settings(&self) -> (r: PrivacySettings)
        ensures
            r == self.privacy_data.settings,
    {
        self.privacy_data.settings
    }
}

/// The path the privacy data is persisted under.
pub fn get_privacy_path(saved_dir: String) -> (r: String)
    ensures
        r@ == saved_dir@ + "/"@ + "privacy_settings"@,
{
    let mut m = saved_dir;
    m.append("/");
    m.append("privacy_settings");
    m
}

/// The processor the distributor registers for privacy requests; the
/// message transport around it lives at the edge.
#[derive(Debug)]
pub struct DistributorPrivacyProcessor {
    pub state: PrivacyState,
}

impl DistributorPrivacyProcessor {
    /// A processor over loaded (or fresh) privacy data.
    pub fn new(privacy_data: PrivacyData) -> (r: Self)
        ensures
            r.state.privacy_data == privacy_data,
    {
        DistributorPrivacyProcessor { state: PrivacyState::new(privacy_data) }
    }

    /// The processor's store.
    pub fn get_state(&self) -> (r: &PrivacyState)
        ensures
            *r == self.state,
    {
        &self.state
    }

    /// Answers one privacy request: a get reads and answers the boolean, a
    /// set writes and acknowledges, a get-all answers the settings record.
    pub fn process_request(state: &mut PrivacyState, extracted_message: PrivacyRequest) -> (r:
        PrivacyResponse)
        requires
            old(state).privacy_data.wf(),
        ensures
            final(state).privacy_data.wf(),
            extracted_message matches PrivacyRequest::GetProperty(p) ==> *final(state) == *old(state) && r == PrivacyResponse::Boolean(spec_get_property(old(state).privacy_data, p.setting)),
            extracted_message matches PrivacyRequest::SetProperty(p) ==> r == PrivacyResponse::Ack
                && (p.setting matches PrivacySetting::AppDataCollection(a) ==> kv_get_or_false(
                final(state).privacy_data.data_collection@,
                a@,
            ) == p.value && final(state).privacy_data.settings == old(state).privacy_data.settings
                && final(state).privacy_data.entitlement == old(state).privacy_data.entitlement
                && forall|k: Seq<char>|
                k != a@ ==> kv_get_or_false(final(state).privacy_data.data_collection@, k)
                    == kv_get_or_false(old(state).privacy_data.data_collection@, k)) && (
            p.setting matches PrivacySetting::AppEntitlementCollection(e) ==> kv_get_or_false(
                final(state).privacy_data.entitlement@,
                e@,
            ) == p.value && final(state).privacy_data.settings == old(state).privacy_data.settings
                && final(state).privacy_data.data_collection == old(
                state,
            ).privacy_data.data_collection && forall|k: Seq<char>|
                k != e@ ==> kv_get_or_false(final(state).privacy_data.entitlement@, k)
                    == kv_get_or_false(old(state).privacy_data.entitlement@, k)) && (!(
            p.setting matches PrivacySetting::AppDataCollection(_)) && !(
            p.setting matches PrivacySetting::AppEntitlementCollection(_)) ==> final(state).privacy_data.settings == spec_set_setting(
                old(state).privacy_data.settings,
                p.setting,
                p.value,
            ) && final(state).privacy_data.data_collection == old(
                state,
            ).privacy_data.data_collection && final(state).privacy_data.entitlement == old(
                state,
            ).privacy_data.entitlement),
            extracted_message matches PrivacyRequest::GetProperties ==> *final(state) == *old(state)
                && r == PrivacyResponse::Settings(old(state).privacy_data.settings),
    {
        match extracted_message {
            PrivacyRequest::GetProperty(p) => {
                let resp = state.get_property(p);
                PrivacyResponse::Boolean(resp)
            },
            PrivacyRequest::SetProperty(p) => {
                let _ = state.set_property(p);
                PrivacyResponse::Ack
            },
            PrivacyRequest::GetProperties => {
                let v = state.get_settings();
                PrivacyResponse::Settings(v)
            },
        }
    }
}

} // verus!
