use firebolt_gateway::apps::{AppCapabilities, AppManifest, AppProperties, Capability};
use firebolt_gateway::broker::BrokerRule;
use firebolt_gateway::device::{DataGovernanceConfig, DeviceManifest};
use firebolt_gateway::errors::DenyReason;
use firebolt_gateway::gateway::{
    FireboltGateway, FireboltGatewayCommand, RequestOutcome, RpcRouter,
};
use firebolt_gateway::grants::{CapabilityRole, GrantStateModify};
use firebolt_gateway::json_values::JsonKind;
use firebolt_gateway::loader::ExtnState;
use firebolt_gateway::openrpc::MethodSchema;
use firebolt_gateway::platform::{BootstrapState, PlatformState};
use firebolt_gateway::rpc::{ApiProtocol, CallContext, ExtnMessage, RpcRequest};
use firebolt_gateway::session::{EffectiveTransport, Session};
use jsonrpsee::{Methods, RpcModule};

fn manifest(supported: Vec<String>, gated: Vec<String>) -> DeviceManifest {
    DeviceManifest {
        metrics_logging_percentage: 50,
        form_factor: "TV".to_owned(),
        data_governance: DataGovernanceConfig { policies: Vec::new() },
        supported_caps: supported,
        grant_policies: gated,
    }
}

fn app_manifest(required: Vec<String>) -> AppManifest {
    AppManifest {
        app_key: "k".to_owned(),
        name: "App".to_owned(),
        start_page: "index.html".to_owned(),
        content_catalog: None,
        runtime: "web".to_owned(),
        x: 0,
        y: 0,
        w: 1920,
        h: 1080,
        capabilities: AppCapabilities {
            used: Capability { required, optional: Vec::new() },
            managed: Capability::default(),
            provided: Capability::default(),
        },
        properties: None,
    }
}

fn dispatch_methods() -> Methods {
    let mut module = RpcModule::new(());
    module
        .register_method("device.model", |_, _, _| "FBX-1")
        .expect("register");
    Methods::from(module)
}

fn ctx(session_id: &str, call_id: u64, protocol: ApiProtocol) -> CallContext {
    CallContext {
        request_id: "req-1".to_owned(),
        call_id,
        app_id: "com.x.y".to_owned(),
        protocol,
        session_id: session_id.to_owned(),
    }
}

fn request(method: &str, params: &str, session_id: &str, protocol: ApiProtocol) -> RpcRequest {
    RpcRequest {
        ctx: ctx(session_id, 7, protocol),
        method: method.to_owned(),
        params_json: params.to_owned(),
    }
}

/// A platform with one registered session, the `device.model` method
/// needing `device:info`, and the calling app permitted to use it.
fn gateway() -> FireboltGateway {
    let mut platform = PlatformState::new(
        manifest(vec!["device:info".to_owned()], Vec::new()),
        "dsid-1".to_owned(),
        None,
        1,
    );
    platform.open_rpc_state.add_open_rpc(vec![MethodSchema {
        name: "device.model".to_owned(),
        params_schema: Some(JsonKind::Object),
        caps: vec!["device:info".to_owned()],
    }]);
    platform
        .apps
        .add_app("com.x.y".to_owned(), app_manifest(vec!["device:info".to_owned()]));
    let bootstrap = BootstrapState { platform_state: platform, extn_state: ExtnState::new() };
    let mut gateway = FireboltGateway::new(bootstrap, dispatch_methods());
    let session = Session { transport: EffectiveTransport::Websocket, cid: "cid-1".to_owned() };
    gateway.apply_command(FireboltGatewayCommand::RegisterSession {
        session_id: "S1".to_owned(),
        session,
    });
    gateway
}

#[test]
fn happy_path_routes_with_lowercase_module_method() {
    let gateway = gateway();
    let req = request("Device.model", "[{}, {}]", "S1", ApiProtocol::JsonRpc);
    match gateway.handle(req, None, 1000, 0, 5) {
        RequestOutcome::Routed { method, session } => {
            assert_eq!(method, "device.model");
            assert!(matches!(session.transport, EffectiveTransport::Websocket));
        },
        other => panic!("expected Routed, got {:?}", other),
    }
}

#[test]
fn invalid_params_yield_the_standard_error_frame() {
    let gateway = gateway();
    let req = request("Device.model", "[{}, 42]", "S1", ApiProtocol::JsonRpc);
    match gateway.handle(req, None, 1000, 0, 5) {
        RequestOutcome::InvalidParams { reply, telemetry } => {
            let (_, msg) = reply.expect("session is live");
            assert_eq!(
                msg.jsonrpc_msg,
                "{\"jsonrpc\":\"2.0\",\"id\":7,\"error\":{\"code\":-32602,\"message\":\"invalid parameters for device.model\"}}"
            );
            assert_eq!(telemetry.code, -32602);
            assert_eq!(telemetry.method, "device.model");
            assert_eq!(telemetry.latency_ms, 5);
        },
        other => panic!("expected InvalidParams, got {:?}", other),
    }
}

#[test]
fn unpermitted_app_is_denied_with_the_permitted_code() {
    let mut gateway = gateway();
    // Replace the app with one that does not declare the capability.
    gateway.state.platform_state.apps = firebolt_gateway::apps::AppRegistry::new();
    gateway
        .state
        .platform_state
        .apps
        .add_app("com.x.y".to_owned(), app_manifest(Vec::new()));
    let req = request("Device.model", "[{}, {}]", "S1", ApiProtocol::JsonRpc);
    match gateway.handle(req, None, 1000, 0, 5) {
        RequestOutcome::Denied { reason, caps, reply, telemetry } => {
            assert_eq!(reason, DenyReason::Unpermitted);
            assert_eq!(caps, vec!["device:info".to_owned()]);
            assert_eq!(telemetry.code, -40300);
            let (_, msg) = reply.expect("session is live");
            assert!(msg.jsonrpc_msg.contains("\"code\":-40300"));
            assert!(msg.jsonrpc_msg.contains("device:info is not permitted"));
        },
        other => panic!("expected Denied, got {:?}", other),
    }
}

#[test]
fn grant_denied_names_every_denied_capability() {
    let mut platform = PlatformState::new(
        manifest(
            vec!["a:b".to_owned(), "c:d".to_owned()],
            vec!["a:b".to_owned(), "c:d".to_owned()],
        ),
        "dsid-1".to_owned(),
        None,
        1,
    );
    platform.open_rpc_state.add_open_rpc(vec![MethodSchema {
        name: "device.model".to_owned(),
        params_schema: None,
        caps: vec!["a:b".to_owned(), "c:d".to_owned()],
    }]);
    platform.apps.add_app(
        "com.x.y".to_owned(),
        app_manifest(vec!["a:b".to_owned(), "c:d".to_owned()]),
    );
    // The user denied both capabilities earlier.
    platform.cap_state.grant_state.grant_modify(
        GrantStateModify::Deny,
        Some("com.x.y".to_owned()),
        CapabilityRole::Use,
        "a:b".to_owned(),
        500,
    );
    platform.cap_state.grant_state.grant_modify(
        GrantStateModify::Deny,
        Some("com.x.y".to_owned()),
        CapabilityRole::Use,
        "c:d".to_owned(),
        500,
    );
    let bootstrap = BootstrapState { platform_state: platform, extn_state: ExtnState::new() };
    let mut gateway = FireboltGateway::new(bootstrap, dispatch_methods());
    gateway.apply_command(FireboltGatewayCommand::RegisterSession {
        session_id: "S1".to_owned(),
        session: Session { transport: EffectiveTransport::Websocket, cid: "cid-1".to_owned() },
    });
    let req = request("Device.model", "[{}, {}]", "S1", ApiProtocol::JsonRpc);
    match gateway.handle(req, None, 1000, 0, 5) {
        RequestOutcome::Denied { reason, caps, reply, .. } => {
            assert_eq!(reason, DenyReason::GrantDenied);
            assert_eq!(caps, vec!["a:b".to_owned(), "c:d".to_owned()]);
            let (_, msg) = reply.expect("session is live");
            assert!(msg.jsonrpc_msg.contains("The user denied access to a:b,c:d"));
            assert!(msg.jsonrpc_msg.contains("\"code\":-40300"));
        },
        other => panic!("expected Denied, got {:?}", other),
    }
}

#[test]
fn request_without_session_is_dropped_silently() {
    let gateway = gateway();
    let req = request("Device.model", "[{}, {}]", "unknown", ApiProtocol::JsonRpc);
    match gateway.handle(req, None, 1000, 0, 5) {
        RequestOutcome::Dropped => {},
        other => panic!("expected Dropped, got {:?}", other),
    }
}

#[test]
fn extension_request_needs_a_callback() {
    let gateway = gateway();
    let req = request("Device.model", "[{}, {}]", "S1", ApiProtocol::Extn);
    match gateway.handle(req, None, 1000, 0, 5) {
        RequestOutcome::Dropped => {},
        other => panic!("expected Dropped, got {:?}", other),
    }
    let req = request("Device.model", "[{}, {}]", "S1", ApiProtocol::Extn);
    let msg = ExtnMessage { payload_request: None, has_callback: true };
    match gateway.handle(req, Some(msg), 1000, 0, 5) {
        RequestOutcome::RoutedExtn { method } => assert_eq!(method, "device.model"),
        other => panic!("expected RoutedExtn, got {:?}", other),
    }
}

#[test]
fn brokered_methods_never_reach_the_router() {
    let mut gateway = gateway();
    gateway
        .state
        .platform_state
        .endpoint_state
        .add_rule(BrokerRule::Prefix("device.".to_owned()));
    let req = request("Device.model", "[{}, {}]", "S1", ApiProtocol::JsonRpc);
    match gateway.handle(req, None, 1000, 0, 5) {
        RequestOutcome::Brokered { method } => assert_eq!(method, "device.model"),
        other => panic!("expected Brokered, got {:?}", other),
    }
}

#[test]
fn missing_handler_is_reported_after_approval() {
    let gateway = gateway();
    // The catalog does not know this method, so validation and the
    // gatekeeper let it through; the router has no handler for it.
    let req = request("Unknown.call", "[{}, {}]", "S1", ApiProtocol::JsonRpc);
    match gateway.handle(req, None, 1000, 0, 5) {
        RequestOutcome::MethodMissing { method } => assert_eq!(method, "unknown.call"),
        other => panic!("expected MethodMissing, got {:?}", other),
    }
}

#[test]
fn reentrant_grant_dialog_response_completes_independently() {
    // Request A is waiting on a user grant; the dialog's response arrives
    // as request B on the same session and must be dispatchable while A is
    // still pending: handling is per-request, not loop-blocking.
    let gateway = gateway();
    let a = request("Device.model", "[{}, {}]", "S1", ApiProtocol::JsonRpc);
    let a_outcome = gateway.handle(a, None, 1000, 0, 5);
    assert!(matches!(a_outcome, RequestOutcome::Routed { .. }));
    let b = request("Unknown.call", "[{}, {}]", "S1", ApiProtocol::JsonRpc);
    let b_outcome = gateway.handle(b, None, 1000, 0, 5);
    assert!(!matches!(b_outcome, RequestOutcome::Dropped));
}

#[test]
fn unregister_session_by_connection_id() {
    let mut gateway = gateway();
    gateway.apply_command(FireboltGatewayCommand::UnregisterSession {
        session_id: "S1".to_owned(),
        cid: "cid-1".to_owned(),
    });
    let req = request("Device.model", "[{}, {}]", "S1", ApiProtocol::JsonRpc);
    assert!(matches!(
        gateway.handle(req, None, 1000, 0, 5),
        RequestOutcome::Dropped
    ));
}

#[test]
fn handle_rpc_command_yields_the_request() {
    let mut gateway = gateway();
    let req = request("Device.model", "[{}, {}]", "S1", ApiProtocol::JsonRpc);
    let yielded = gateway.apply_command(FireboltGatewayCommand::HandleRpc { request: req });
    let (req, extn) = yielded.expect("request yielded");
    assert_eq!(req.method, "Device.model");
    assert!(extn.is_none());
}

#[test]
fn telemetry_record_carries_what_it_was_built_from() {
    let t = RpcRouter::log_rdk_telemetry_message("com.x.y".to_owned(), "device.model".to_owned(), 0, 12);
    assert_eq!(t.app_id, "com.x.y");
    assert_eq!(t.method, "device.model");
    assert_eq!(t.code, 0);
    assert_eq!(t.latency_ms, 12);
}

#[test]
fn browser_props_round_trip() {
    let props = AppProperties {
        user_agent: Some("ua".to_owned()),
        http_cookie_accept_policy: None,
        local_storage_enabled: Some(true),
        languages: None,
        headers: None,
    };
    let browser = props.get_browser_props();
    assert_eq!(browser.user_agent, Some("ua".to_owned()));
    assert_eq!(browser.local_storage_enabled, Some(true));
}
