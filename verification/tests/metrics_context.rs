use firebolt_gateway::advertising::AccountSession;
use firebolt_gateway::device::RippleError;
use firebolt_gateway::metrics::{
    get_os_info_from_firebolt, get_persistent_store_bool, get_persistent_store_string,
    FirmwareInfo,
};
use firebolt_gateway::device::{
    DataEventType, DataGovernanceConfig, DataGovernancePolicy, SettingTag, StorageProperty,
};
use firebolt_gateway::metrics::{
    metrics_random_number, unset, MetricsBootInputs, MetricsState, PrivacySettingsData,
};

fn empty_inputs() -> MetricsBootInputs {
    MetricsBootInputs {
        mac_address: None,
        serial_number: None,
        device_model: None,
        language: None,
        os_name: None,
        os_ver: None,
        device_name: None,
        firmware: None,
        proposition: None,
        retailer: None,
        primary_provider: None,
        coam: None,
        country: None,
        region: None,
        account_type: None,
        operator: None,
        account_detail_type: None,
        device_type: None,
        device_manufacturer_store: None,
        device_make: None,
    }
}

#[test]
fn unset_builds_the_sentinel() {
    assert_eq!(unset("language"), "language.unset");
    assert_eq!(unset("device.make"), "device.make.unset");
}

#[test]
fn initialize_fills_sentinels_when_sources_are_empty() {
    let mut metrics = MetricsState::new();
    metrics.initialize(
        100,
        50,
        "dsid-1".to_owned(),
        None,
        "TV".to_owned(),
        None,
        empty_inputs(),
    );
    let c = metrics.get_context();
    assert!(c.enabled);
    assert_eq!(c.device_language, "language.unset");
    assert_eq!(c.os_name, "os.name.unset");
    assert_eq!(c.os_ver, "os.ver.unset");
    assert_eq!(c.device_name, Some("device.name.unset".to_owned()));
    assert_eq!(c.proposition, "Proposition.missing.from.persistent.store");
    assert_eq!(c.platform, c.proposition);
    assert_eq!(c.device_type, "TV");
    assert_eq!(c.device_manufacturer, "device.make.unset");
    assert_eq!(c.activated, Some(true));
    assert_eq!(c.authenticated, Some(true));
    assert_eq!(c.account_id, None);
    assert_eq!(c.distribution_tenant_id, "distribution_tenant_id.unset");
    assert_eq!(c.device_session_id, "dsid-1");
}

#[test]
fn initialize_prefers_the_gathered_values() {
    let mut metrics = MetricsState::new();
    let mut inputs = empty_inputs();
    inputs.mac_address = Some("aa:bb".to_owned());
    inputs.language = Some("en-GB".to_owned());
    inputs.device_type = Some("STB".to_owned());
    inputs.device_manufacturer_store = Some("Acme".to_owned());
    let session = AccountSession {
        id: "tenant-1".to_owned(),
        token: "SECRET-REDACTED".to_owned(),
        account_id: "acc-1".to_owned(),
        device_id: "dev-1".to_owned(),
    };
    metrics.initialize(
        0,
        50,
        "dsid-1".to_owned(),
        Some("2.0.1".to_owned()),
        "TV".to_owned(),
        Some(session),
        inputs,
    );
    let c = metrics.get_context();
    assert!(!c.enabled);
    assert_eq!(c.mac_address, "aa:bb");
    assert_eq!(c.device_language, "en-GB");
    assert_eq!(c.device_type, "STB");
    assert_eq!(c.device_manufacturer, "Acme");
    assert_eq!(c.ripple_version, "2.0.1");
    assert_eq!(c.account_id, Some("acc-1".to_owned()));
    assert_eq!(c.device_id, Some("dev-1".to_owned()));
    assert_eq!(c.distribution_tenant_id, "tenant-1");
}

#[test]
fn governance_tags_union_the_allowed_settings() {
    let config = DataGovernanceConfig {
        policies: vec![
            DataGovernancePolicy {
                event_type: DataEventType::BusinessIntelligence,
                setting_tags: vec![
                    SettingTag {
                        setting: StorageProperty::AllowBusinessAnalytics,
                        tags: vec!["ba-tag".to_owned()],
                    },
                    SettingTag {
                        setting: StorageProperty::AllowPersonalization,
                        tags: vec!["p-tag-1".to_owned(), "p-tag-2".to_owned()],
                    },
                ],
            },
            DataGovernancePolicy {
                event_type: DataEventType::Watched,
                setting_tags: vec![SettingTag {
                    setting: StorageProperty::AllowWatchHistory,
                    tags: vec!["watch-tag".to_owned()],
                }],
            },
        ],
    };
    let mut metrics = MetricsState::new();
    metrics.update_data_governance_tags(
        &config,
        &PrivacySettingsData {
            allow_business_analytics: Some(true),
            allow_resume_points: Some(true),
            allow_personalization: Some(false),
            allow_product_analytics: None,
        },
    );
    assert_eq!(
        metrics.get_context().data_governance_tags,
        Some(vec!["ba-tag".to_owned(), "watch-tag".to_owned()])
    );

    metrics.update_data_governance_tags(
        &config,
        &PrivacySettingsData {
            allow_business_analytics: None,
            allow_resume_points: None,
            allow_personalization: None,
            allow_product_analytics: None,
        },
    );
    assert_eq!(metrics.get_context().data_governance_tags, None);
}

#[test]
fn api_stats_track_stages_per_request() {
    let mut metrics = MetricsState::new();
    metrics.add_api_stats("req-1", "device.model");
    let stats = metrics.get_api_stats("req-1").expect("tracked");
    assert_eq!(stats.api, "device.model");
    assert_eq!(stats.stats_ref, None);

    metrics.update_api_stats_ref("req-1", Some("span-9".to_owned()));
    assert_eq!(
        metrics.get_api_stats("req-1").unwrap().stats_ref,
        Some("span-9".to_owned())
    );

    let delta = metrics.update_api_stage("req-1", "validated", 30);
    assert_eq!(delta, 30);
    let delta = metrics.update_api_stage("req-1", "gated", 45);
    assert_eq!(delta, 15);
    let stats = metrics.get_api_stats("req-1").unwrap();
    assert_eq!(stats.stages.len(), 2);
    assert_eq!(stats.stages[1], ("gated".to_owned(), 15));

    assert_eq!(metrics.update_api_stage("req-2", "validated", 50), -1);

    metrics.remove_api_stats("req-1");
    assert!(metrics.get_api_stats("req-1").is_none());
}

#[test]
fn telemetry_listeners_come_and_go() {
    let mut metrics = MetricsState::new();
    metrics.operational_telemetry_listener("sink-a", true);
    metrics.operational_telemetry_listener("sink-a", true);
    metrics.operational_telemetry_listener("sink-b", true);
    assert_eq!(metrics.get_listeners(), vec!["sink-a".to_owned(), "sink-b".to_owned()]);
    metrics.operational_telemetry_listener("sink-a", false);
    assert_eq!(metrics.get_listeners(), vec!["sink-b".to_owned()]);
}

#[test]
fn session_id_update_defaults_to_empty() {
    let mut metrics = MetricsState::new();
    metrics.update_session_id(Some("next".to_owned()));
    assert_eq!(metrics.get_context().device_session_id, "next");
    metrics.update_session_id(None);
    assert_eq!(metrics.get_context().device_session_id, "");
}

#[test]
fn sampling_number_stays_in_range() {
    for _ in 0..200 {
        let n = metrics_random_number();
        assert!((1..=100).contains(&n));
    }
}

#[test]
fn persistent_store_reads_resolve_to_options() {
    assert_eq!(
        get_persistent_store_string(Ok("acme".to_owned())),
        Some("acme".to_owned())
    );
    assert_eq!(get_persistent_store_string(Ok(String::new())), None);
    assert_eq!(get_persistent_store_string(Err(RippleError::InvalidOutput)), None);
    assert_eq!(get_persistent_store_bool(Ok(true)), Some(true));
    assert_eq!(get_persistent_store_bool(Err(RippleError::InvalidOutput)), None);
}

#[test]
fn firmware_query_resolution() {
    let info = get_os_info_from_firebolt(Some(FirmwareInfo {
        name: "rdk".to_owned(),
        version: "4.1".to_owned(),
    }))
    .expect("a reply resolves");
    assert_eq!(info.name, "rdk");
    assert!(matches!(
        get_os_info_from_firebolt(None),
        Err(RippleError::InvalidOutput)
    ));
}
