use firebolt_gateway::device::{
    try_manifest_files, DataGovernanceConfig, DeviceManifest, LoadDeviceManifestStep, RippleError,
};
use firebolt_gateway::rpc::{ApiProtocol, CallContext};
use firebolt_gateway::session::{EffectiveTransport, Session, SessionState};

fn manifest(form_factor: &str) -> DeviceManifest {
    DeviceManifest {
        metrics_logging_percentage: 10,
        form_factor: form_factor.to_owned(),
        data_governance: DataGovernanceConfig { policies: Vec::new() },
        supported_caps: Vec::new(),
        grant_policies: Vec::new(),
    }
}

fn ctx(session_id: &str) -> CallContext {
    CallContext {
        request_id: "r".to_owned(),
        call_id: 1,
        app_id: "com.x.y".to_owned(),
        protocol: ApiProtocol::JsonRpc,
        session_id: session_id.to_owned(),
    }
}

#[test]
fn the_first_loaded_manifest_wins() {
    let loaded = vec![None, Some(manifest("TV")), Some(manifest("STB"))];
    let manifest = try_manifest_files(loaded).expect("one loads");
    assert_eq!(manifest.form_factor, "TV");
}

#[test]
fn no_loader_succeeding_is_a_bootstrap_error() {
    let r = try_manifest_files(vec![None, None]);
    assert!(matches!(r, Err(RippleError::BootstrapError)));
    assert!(matches!(try_manifest_files(Vec::new()), Err(RippleError::BootstrapError)));
}

#[test]
fn get_manifest_unwraps_the_first_success() {
    let loaded = vec![Some(manifest("IPSTB"))];
    let manifest = LoadDeviceManifestStep::get_manifest(loaded);
    assert_eq!(manifest.get_form_factor(), "IPSTB");
}

#[test]
fn sessions_register_resolve_and_clear_by_cid() {
    let mut sessions = SessionState::new();
    assert!(!sessions.has_session(&ctx("S1")));

    sessions.add_session(
        "S1".to_owned(),
        Session { transport: EffectiveTransport::Websocket, cid: "cid-1".to_owned() },
    );
    sessions.add_session(
        "S2".to_owned(),
        Session {
            transport: EffectiveTransport::Bridge("bridge-7".to_owned()),
            cid: "cid-2".to_owned(),
        },
    );
    assert!(sessions.has_session(&ctx("S1")));
    let s2 = sessions.get_session(&ctx("S2")).expect("registered");
    match s2.transport {
        EffectiveTransport::Bridge(id) => assert_eq!(id, "bridge-7"),
        EffectiveTransport::Websocket => panic!("expected the bridge transport"),
    }

    // Re-registering the same id replaces the session.
    sessions.add_session(
        "S1".to_owned(),
        Session { transport: EffectiveTransport::Websocket, cid: "cid-9".to_owned() },
    );
    assert_eq!(sessions.get_session(&ctx("S1")).unwrap().cid, "cid-9");

    sessions.clear_session("cid-2");
    assert!(!sessions.has_session(&ctx("S2")));
    assert!(sessions.has_session(&ctx("S1")));
}
