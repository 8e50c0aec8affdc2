use firebolt_gateway::privacy::{
    get_privacy_path, DistributorPrivacyProcessor, GetPropertyParams, PrivacyData, PrivacyRequest,
    PrivacyResponse, PrivacySetting, PrivacyState, SetPropertyParams,
};

#[test]
fn named_settings_read_back_what_was_set() {
    let mut state = PrivacyState::new(PrivacyData::new());
    assert!(!state.get_property(GetPropertyParams { setting: PrivacySetting::WatchHistory }));
    state.set_property(SetPropertyParams { setting: PrivacySetting::WatchHistory, value: true });
    assert!(state.get_property(GetPropertyParams { setting: PrivacySetting::WatchHistory }));
    assert!(state.get_settings().allow_watch_history);
    assert!(!state.get_settings().allow_personalization);
}

#[test]
fn app_scoped_settings_default_to_disallowed() {
    let mut state = PrivacyState::new(PrivacyData::new());
    let read = |state: &PrivacyState, app: &str| {
        state.get_property(GetPropertyParams {
            setting: PrivacySetting::AppDataCollection(app.to_owned()),
        })
    };
    assert!(!read(&state, "com.x.y"));
    state.set_property(SetPropertyParams {
        setting: PrivacySetting::AppDataCollection("com.x.y".to_owned()),
        value: true,
    });
    assert!(read(&state, "com.x.y"));
    assert!(!read(&state, "com.other"));
    state.set_property(SetPropertyParams {
        setting: PrivacySetting::AppDataCollection("com.x.y".to_owned()),
        value: false,
    });
    assert!(!read(&state, "com.x.y"));
}

#[test]
fn entitlement_map_is_separate_from_data_collection() {
    let mut state = PrivacyState::new(PrivacyData::new());
    state.set_property(SetPropertyParams {
        setting: PrivacySetting::AppEntitlementCollection("com.x.y".to_owned()),
        value: true,
    });
    assert!(state.get_property(GetPropertyParams {
        setting: PrivacySetting::AppEntitlementCollection("com.x.y".to_owned()),
    }));
    assert!(!state.get_property(GetPropertyParams {
        setting: PrivacySetting::AppDataCollection("com.x.y".to_owned()),
    }));
}

#[test]
fn process_request_answers_each_kind() {
    let mut state = PrivacyState::new(PrivacyData::new());
    let r = DistributorPrivacyProcessor::process_request(
        &mut state,
        PrivacyRequest::SetProperty(SetPropertyParams {
            setting: PrivacySetting::Acr,
            value: true,
        }),
    );
    assert!(matches!(r, PrivacyResponse::Ack));
    let r = DistributorPrivacyProcessor::process_request(
        &mut state,
        PrivacyRequest::GetProperty(GetPropertyParams { setting: PrivacySetting::Acr }),
    );
    assert!(matches!(r, PrivacyResponse::Boolean(true)));
    let r = DistributorPrivacyProcessor::process_request(&mut state, PrivacyRequest::GetProperties);
    match r {
        PrivacyResponse::Settings(settings) => {
            assert!(settings.allow_acr_collection);
            assert!(!settings.allow_camera_analytics);
        },
        other => panic!("expected settings, got {:?}", other),
    }
}

#[test]
fn privacy_path_is_under_the_saved_dir() {
    assert_eq!(get_privacy_path("/opt/persistent".to_owned()), "/opt/persistent/privacy_settings");
}

#[test]
fn processor_construction_keeps_the_data() {
    let mut data = PrivacyData::new();
    data.set_data_collections("com.x.y".to_owned(), true);
    let processor = DistributorPrivacyProcessor::new(data);
    assert!(processor
        .get_state()
        .privacy_data
        .get_data_collections("com.x.y".to_owned()));
}
