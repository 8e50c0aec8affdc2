//! Advertising configuration records exchanged with the distributor: ad-id
//! and ad-config request/response shapes and their documented defaults.

use std::collections::HashMap;
use vstd::prelude::*;

verus! {

/// A distributor account binding carried by advertising requests.
#[derive(Debug, Clone, PartialEq)]
pub struct AccountSession {
    pub id: String,
    pub token: String,
    pub account_id: String,
    pub device_id: String,
}

#[derive(Debug, Clone, PartialEq)]
pub struct AdIdRequestParams {
    pub privacy_data: HashMap<String, String>,
    pub app_id: String,
    pub dist_session: AccountSession,
    pub scope: HashMap<String, String>,
}

#[derive(Debug, Clone, PartialEq)]
pub struct AdIdResponse {
    pub ifa: String,
    pub ifa_type: String,
    pub lmt: String,
}

#[derive(Debug, Clone, PartialEq)]
pub struct AdConfigRequestParams {
    pub privacy_data: HashMap<String, String>,
    pub durable_app_id: String,
    pub dist_session: AccountSession,
    pub environment: String,
    pub scope: HashMap<String, String>,
}

#[derive(Debug, Clone, PartialEq)]
pub struct AdConfigResponse {
    pub ad_server_url: String,
    pub ad_server_url_template: String,
    pub ad_network_id: String,
    pub ad_profile_id: String,
    pub ad_site_section_id: String,
    pub app_bundle_id: String,
    pub ifa: String,
    pub ifa_value: String,
}

#[derive(Debug, Clone, PartialEq)]
pub struct AdvertisingFrameworkConfig {
    pub ad_server_url: String,
    pub ad_server_url_template: String,
    pub ad_network_id: String,
    pub ad_profile_id: String,
    pub ad_site_section_id: String,
    pub ad_opt_out: bool,
    pub privacy_data: String,
    pub ifa_value: String,
    pub ifa: String,
    pub app_name: String,
    pub app_bundle_id: String,
    pub distributor_app_id: String,
    pub device_ad_attributes: String,
    pub coppa: u32,
    pub authentication_entity: String,
}

#[derive(Debug, PartialEq)]
pub struct GetAdConfig {
    pub options: AdConfig,
}

/// The advertising environment a request is destined for.
#[derive(Debug, Clone, Copy, PartialEq, Eq, Structural)]
pub enum Environment {
    Prod,
    Test,
}

#[derive(Debug, Clone, PartialEq)]
pub struct AdConfig {
    pub environment: Environment,
    pub coppa: Option<bool>,
    pub authentication_entity: Option<String>,
}

impl Environment {
    /// The lowercase wire name of the environment.
    pub fn as_string(&self) -> (r: String)
        ensures
            *self == Environment::Prod ==> r@ == "prod"@,
            *self == Environment::Test ==> r@ == "test"@,
    {
        match self {
            Environment::Prod => {
                let mut m = String::new();
                m.append("prod");
                m
            },
            Environment::Test => {
                let mut m = String::new();
                m.append("test");
                m
            },
        }
    }
}

impl Default for Environment {
    /// The default environment is production.
    fn default() -> (r: Self)
        ensures
            r == Environment::Prod,
    {
        Environment::Prod
    }
}

impl Default for AdConfig {
    /// All options absent, environment production.
    fn default() -> (r: Self)
        ensures
            r.environment == Environment::Prod,
            r.coppa is None,
            r.authentication_entity is None,
    {
        AdConfig { environment: Environment::Prod, coppa: None, authentication_entity: None }
    }
}

impl Default for GetAdConfig {
    /// Unlike the bare `AdConfig` default, a defaulted request pins COPPA to
    /// `false` and carries an empty authentication entity.
    fn default() -> (r: Self)
        ensures
            r.options.environment == Environment::Prod,
            r.options.coppa == Some(false),
            r.options.authentication_entity matches Some(s) && s@ == Seq::<char>::empty(),
    {
        GetAdConfig {
            options: AdConfig {
                environment: Environment::Prod,
                coppa: Some(false),
                authentication_entity: Some(String::new()),
            },
        }
    }
}

impl Default for AdConfigResponse {
    /// Every field empty.
    fn default() -> (r: Self)
        ensures
            r.ad_server_url@ == Seq::<char>::empty(),
            r.ad_server_url_template@ == Seq::<char>::empty(),
            r.ad_network_id@ == Seq::<char>::empty(),
            r.ad_profile_id@ == Seq::<char>::empty(),
            r.ad_site_section_id@ == Seq::<char>::empty(),
            r.app_bundle_id@ == Seq::<char>::empty(),
            r.ifa@ == Seq::<char>::empty(),
            r.ifa_value@ == Seq::<char>::empty(),
    {
        AdConfigResponse {
            ad_server_url: String::new(),
            ad_server_url_template: String::new(),
            ad_network_id: String::new(),
            ad_profile_id: String::new(),
            ad_site_section_id: String::new(),
            app_bundle_id: String::new(),
            ifa: String::new(),
            ifa_value: String::new(),
        }
    }
}

} // verus!
