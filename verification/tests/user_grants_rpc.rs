use firebolt_gateway::device::{DataGovernanceConfig, DeviceManifest};
use firebolt_gateway::grants::{
    CapabilityRole, GrantEntry, GrantLifespan, GrantStatus, GrantStateModify,
};
use firebolt_gateway::platform::PlatformState;
use firebolt_gateway::rpc::{ApiProtocol, CallContext};
use firebolt_gateway::user_grants::{
    AppManagerResponse, GetUserGrantsByAppRequest, GetUserGrantsByCapabilityRequest,
    GrantModificationOptions, GrantRequest, UserGrantsImpl, MAX_RFC3339_EPOCH_SECS,
};

fn ctx() -> CallContext {
    CallContext {
        request_id: "r".to_owned(),
        call_id: 1,
        app_id: "com.x.y".to_owned(),
        protocol: ApiProtocol::JsonRpc,
        session_id: "S1".to_owned(),
    }
}

fn grants_impl(gated: Vec<String>) -> UserGrantsImpl {
    let manifest = DeviceManifest {
        metrics_logging_percentage: 0,
        form_factor: "TV".to_owned(),
        data_governance: DataGovernanceConfig { policies: Vec::new() },
        supported_caps: gated.clone(),
        grant_policies: gated,
    };
    UserGrantsImpl {
        platform_state: PlatformState::new(manifest, "dsid".to_owned(), None, 1),
    }
}

fn grant_request(cap: &str, app: Option<&str>) -> GrantRequest {
    GrantRequest {
        role: CapabilityRole::Use,
        capability: cap.to_owned(),
        options: app.map(|a| GrantModificationOptions { app_id: Some(a.to_owned()) }),
    }
}

#[test]
fn transform_shows_the_wire_names() {
    let entry = GrantEntry {
        role: CapabilityRole::Use,
        capability: "device:info".to_owned(),
        status: Some(GrantStatus::Allowed),
        lifespan: Some(GrantLifespan::Forever),
        last_modified_time: 0,
        lifespan_ttl_in_secs: None,
    };
    let info = UserGrantsImpl::transform(
        Some("com.x.y".to_owned()),
        Some("The App".to_owned()),
        &entry,
    );
    let app = info.app.expect("app scope");
    assert_eq!(app.id, "com.x.y");
    assert_eq!(app.title, Some("The App".to_owned()));
    assert_eq!(info.state, "granted");
    assert_eq!(info.capability, "device:info");
    assert_eq!(info.role, "use");
    assert_eq!(info.lifespan, "forever");
    assert_eq!(info.expires, None);
}

#[test]
fn transform_renders_the_expiry_instant() {
    let entry = GrantEntry {
        role: CapabilityRole::Use,
        capability: "device:info".to_owned(),
        status: Some(GrantStatus::Denied),
        lifespan: Some(GrantLifespan::Seconds),
        last_modified_time: 0,
        lifespan_ttl_in_secs: Some(86400),
    };
    let info = UserGrantsImpl::transform(None, None, &entry);
    assert!(info.app.is_none());
    assert_eq!(info.state, "denied");
    assert_eq!(info.lifespan, "seconds");
    assert_eq!(info.expires, Some("1970-01-02T00:00:00+00:00".to_owned()));
}

#[test]
fn grant_deny_clear_flow_over_the_rpc_surface() {
    let mut ug = grants_impl(vec!["device:info".to_owned()]);
    assert!(ug
        .usergrants_grant(&ctx(), grant_request("device:info", Some("com.x.y")), 100)
        .is_ok());
    let infos = ug
        .usergrants_app(
            &ctx(),
            GetUserGrantsByAppRequest { app_id: "com.x.y".to_owned() },
            Some("The App".to_owned()),
        )
        .expect("listing");
    assert_eq!(infos.len(), 1);
    assert_eq!(infos[0].state, "granted");
    assert_eq!(infos[0].capability, "device:info");

    assert!(ug
        .usergrants_deny(&ctx(), grant_request("device:info", Some("com.x.y")), 200)
        .is_ok());
    let infos = ug
        .usergrants_app(
            &ctx(),
            GetUserGrantsByAppRequest { app_id: "com.x.y".to_owned() },
            None,
        )
        .expect("listing");
    assert_eq!(infos.len(), 1);
    assert_eq!(infos[0].state, "denied");

    assert!(ug
        .usergrants_clear(&ctx(), grant_request("device:info", Some("com.x.y")), 300)
        .is_ok());
    let infos = ug
        .usergrants_app(
            &ctx(),
            GetUserGrantsByAppRequest { app_id: "com.x.y".to_owned() },
            None,
        )
        .expect("listing");
    assert!(infos.is_empty());
}

#[test]
fn ungated_capability_mutations_surface_errors() {
    let mut ug = grants_impl(vec!["device:info".to_owned()]);
    let err = ug
        .usergrants_grant(&ctx(), grant_request("not:gated", Some("com.x.y")), 100)
        .expect_err("not gated");
    assert_eq!(err.message, "Unable to grant the capability");
    let err = ug
        .usergrants_deny(&ctx(), grant_request("not:gated", Some("com.x.y")), 100)
        .expect_err("not gated");
    assert_eq!(err.message, "Unable to deny the capability");
    let err = ug
        .usergrants_clear(&ctx(), grant_request("not:gated", Some("com.x.y")), 100)
        .expect_err("not gated");
    assert_eq!(err.message, "Unable to clear the capability");
}

#[test]
fn device_and_capability_listings() {
    let mut ug = grants_impl(vec!["a:b".to_owned(), "c:d".to_owned()]);
    assert!(ug.usergrants_grant(&ctx(), grant_request("a:b", None), 10).is_ok());
    assert!(ug
        .usergrants_grant(&ctx(), grant_request("a:b", Some("app.one")), 20)
        .is_ok());
    assert!(ug
        .usergrants_grant(&ctx(), grant_request("c:d", Some("app.one")), 30)
        .is_ok());

    let device = ug.usergrants_device(&ctx()).expect("device grants");
    assert_eq!(device.len(), 1);
    assert!(device[0].app.is_none());

    let by_cap = ug
        .usergrants_capability(
            &ctx(),
            GetUserGrantsByCapabilityRequest { capability: "a:b".to_owned() },
        )
        .expect("by capability");
    assert_eq!(by_cap.len(), 1);
    assert_eq!(by_cap[0].capability, "a:b");
    assert_eq!(by_cap[0].app.as_ref().map(|a| a.id.clone()), Some("app.one".to_owned()));
}

#[test]
fn the_underlying_store_mutation_is_visible_through_the_platform() {
    let mut ug = grants_impl(vec!["device:info".to_owned()]);
    assert!(ug
        .usergrants_grant(&ctx(), grant_request("device:info", Some("com.x.y")), 100)
        .is_ok());
    assert!(ug.platform_state.cap_state.grant_state.grant_modify(
        GrantStateModify::Clear,
        Some("com.x.y".to_owned()),
        CapabilityRole::Use,
        "device:info".to_owned(),
        200,
    ));
    assert!(ug
        .platform_state
        .cap_state
        .grant_state
        .get_grant_entries_for_app_id("com.x.y".to_owned())
        .is_empty());
}

#[test]
fn app_title_resolution_from_the_app_manager() {
    assert_eq!(
        UserGrantsImpl::get_app_title(
            "com.x.y",
            Some(AppManagerResponse::AppName(Some("The App".to_owned()))),
        )
        .expect("a name reply resolves"),
        Some("The App".to_owned())
    );
    let err = UserGrantsImpl::get_app_title("com.x.y", Some(AppManagerResponse::Other))
        .expect_err("a stray reply fails");
    assert_eq!(err.message, "Failed to get App Title for com.x.y");
    let err = UserGrantsImpl::get_app_title("com.x.y", None).expect_err("no reply fails");
    assert_eq!(err.message, "Failed to get App Name for com.x.y");
}

#[test]
fn expiry_rendering_covers_the_whole_representable_range() {
    let at_bound = GrantEntry {
        role: CapabilityRole::Use,
        capability: "device:info".to_owned(),
        status: Some(GrantStatus::Allowed),
        lifespan: Some(GrantLifespan::Seconds),
        last_modified_time: MAX_RFC3339_EPOCH_SECS - 5,
        lifespan_ttl_in_secs: Some(5),
    };
    let info = UserGrantsImpl::transform(None, None, &at_bound);
    let expires = info.expires.expect("the last representable second renders");
    assert!(expires.starts_with("+262142-12-31T23:59:59"));

    let past_bound = GrantEntry {
        role: CapabilityRole::Use,
        capability: "device:info".to_owned(),
        status: Some(GrantStatus::Allowed),
        lifespan: Some(GrantLifespan::Seconds),
        last_modified_time: MAX_RFC3339_EPOCH_SECS - 4,
        lifespan_ttl_in_secs: Some(5),
    };
    let info = UserGrantsImpl::transform(None, None, &past_bound);
    assert_eq!(info.expires, None);
}
