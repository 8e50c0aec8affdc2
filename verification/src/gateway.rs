//! The gateway dispatch pipeline. One long-lived consumer applies commands
//! (session add and remove, request arrival); each request is then handled
//! on a task of its own: prerequisites, lowercase-module normalization,
//! parameter validation, the gatekeeper, the broker facade, and finally
//! routing, with a telemetry record on every terminal outcome.

use vstd::prelude::*;
use crate::broker::spec_brokered;
use crate::errors::{
    spec_rpc_error_code, spec_rpc_error_message, DenyReason, JSON_RPC_STANDARD_ERROR_INVALID_PARAMS,
};
use crate::gatekeeper::{spec_deny_caps, spec_deny_reason, spec_gate_ok, FireboltGatekeeper};
use crate::json_out::{json_of_error_frame, serialize_json_rpc_message};
use crate::metrics::{sat_sub_i64, spec_sat_sub_i64};
use crate::platform::{BootstrapState, PlatformState};
use crate::registry::methods_names;
use crate::rpc::{
    ApiMessage, ApiProtocol, ExtnMessage, JsonRpcError, JsonRpcMessage, RpcRequest, TelemetryRecord,
};
use crate::session::{EffectiveTransport, Session};
use crate::text::{
    is_lowercase_module, lemma_lowercase_module_idempotent, name_with_lowercase_module,
    spec_lowercase_module,
};

verus! {

/// The gateway: the bootstrap aggregate it dispatches against.
pub struct FireboltGateway {
    pub state: BootstrapState,
}

/// The commands the single consumer loop accepts from transports.
#[derive(Debug)]
pub enum FireboltGatewayCommand {
    RegisterSession { session_id: String, session: Session },
    UnregisterSession { session_id: String, cid: String },
    HandleRpc { request: RpcRequest },
    HandleRpcForExtn { msg: ExtnMessage },
}

/// How the handling of one request ended.
#[derive(Debug)]
pub enum RequestOutcome {
    /// Prerequisites failed: dropped with only a log.
    Dropped,
    /// The parameters failed schema validation: an error reply and a
    /// telemetry record.
    InvalidParams { reply: Option<(EffectiveTransport, ApiMessage)>, telemetry: TelemetryRecord },
    /// The gatekeeper denied the call.
    Denied {
        reason: DenyReason,
        caps: Vec<String>,
        reply: Option<(EffectiveTransport, ApiMessage)>,
        telemetry: TelemetryRecord,
    },
    /// A brokerage rule claimed the method; the broker owns the call.
    Brokered { method: String },
    /// Approved; the reply goes through the extension's inline callback.
    RoutedExtn { method: String },
    /// Approved; the handler is invoked and the reply goes to the session.
    Routed { method: String, session: Session },
    /// Approved, but no handler of that name is registered.
    MethodMissing { method: String },
}

/// Whether the request's prerequisites hold: an extension request needs an
/// inline callback, every other request a live session.
pub open spec fn spec_prereq_ok(
    platform: PlatformState,
    request: RpcRequest,
    extn_msg: Option<ExtnMessage>,
) -> bool {
    if request.ctx.protocol == ApiProtocol::Extn {
        extn_msg matches Some(em) && em.has_callback
    } else {
        platform.session_state.spec_has_session(request.ctx.session_id@)
    }
}

/// What an error reply must look like: present exactly when the session is
/// live, addressed over its transport, framed with the request's call id.
pub open spec fn reply_matches(
    platform: PlatformState,
    request: RpcRequest,
    code: int,
    message: Seq<char>,
    reply: Option<(EffectiveTransport, ApiMessage)>,
) -> bool {
    match reply {
        Some(p) => platform.session_state.spec_has_session(request.ctx.session_id@) && p.0
            == platform.session_state.spec_session_for(request.ctx.session_id@).transport
            && p.1.protocol == request.ctx.protocol && p.1.request_id == request.ctx.request_id
            && p.1.jsonrpc_msg@ == json_of_error_frame(
            request.ctx.call_id as int,
            code,
            message,
            None,
        ),
        None => !platform.session_state.spec_has_session(request.ctx.session_id@),
    }
}

/// What a telemetry record must say: the caller, the normalized method,
/// the outcome code, and the clamped latency.
pub open spec fn telemetry_matches(
    request: RpcRequest,
    method: Seq<char>,
    code: int,
    start_ms: int,
    end_ms: int,
    t: TelemetryRecord,
) -> bool {
    t.app_id == request.ctx.app_id && t.method@ == method && t.code as int == code
        && t.latency_ms as int == spec_sat_sub_i64(end_ms, start_ms)
}

/// The router's telemetry side: one RDK-telemetry record per terminal
/// outcome.
pub struct RpcRouter;

impl RpcRouter {
    /// Builds the RDK-telemetry record for a terminal outcome.
    pub fn log_rdk_telemetry_message(
        app_id: String,
        method: String,
        code: i32,
        latency_ms: i64,
    ) -> (r: TelemetryRecord)
        ensures
            r.app_id == app_id,
            r.method == method,
            r.code == code,
            r.latency_ms == latency_ms,
    {
        TelemetryRecord { app_id, method, code, latency_ms }
    }
}

/// Builds and addresses the error reply for the request: the serialized
/// frame over the session's transport, or nothing (a log) when the session
/// is gone.
pub fn send_json_rpc_error(
    platform_state: &PlatformState,
    request: &RpcRequest,
    json_rpc_error: JsonRpcError,
) -> (r: Option<(EffectiveTransport, ApiMessage)>)
    requires
        platform_state.session_state.wf(),
    ensures
        match r {
            Some(p) => platform_state.session_state.spec_has_session(request.ctx.session_id@)
                && p.0 == platform_state.session_state.spec_session_for(
                request.ctx.session_id@,
            ).transport && p.1.protocol == request.ctx.protocol && p.1.request_id
                == request.ctx.request_id && p.1.jsonrpc_msg@ == json_of_error_frame(
                request.ctx.call_id as int,
                json_rpc_error.code as int,
                json_rpc_error.message@,
                match json_rpc_error.data {
                    Some(d) => Some(d@),
                    None => None,
                },
            ),
            None => !platform_state.session_state.spec_has_session(request.ctx.session_id@),
        },
{
    match platform_state.session_state.get_session(&request.ctx) {
        Some(session) => {
            let error_message = JsonRpcMessage {
                id: request.ctx.call_id,
                error: Some(json_rpc_error),
            };
            proof {
                crate::json_out::lemma_error_frame(error_message);
            }
            let serialized = serialize_json_rpc_message(&error_message);
            let api_message = ApiMessage::new(
                request.ctx.protocol,
                serialized,
                request.ctx.request_id.clone(),
            );
            Some((session.transport, api_message))
        },
        None => None,
    }
}

impl FireboltGateway {
    /// Builds the gateway, publishing the given method table to the router
    /// by whole replacement.
    pub fn new(state: BootstrapState, methods: jsonrpsee::Methods) -> (r: FireboltGateway)
        ensures
            methods_names(r.state.platform_state.router_state.methods) == methods_names(methods),
            r.state.platform_state == (PlatformState {
                router_state: r.state.platform_state.router_state,
                ..state.platform_state
            }),
            r.state.extn_state == state.extn_state,
    {
        let mut state = state;
        state.platform_state.router_state.update_methods(methods);
        FireboltGateway { state }
    }

    /// Applies one command from the consumer loop. Session commands mutate
    /// the registry and yield nothing; request commands leave the state
    /// untouched and yield the request to be handled (an extension message
    /// without an RPC payload yields nothing, logged as invalid).
    pub fn apply_command(&mut self, command: FireboltGatewayCommand) -> (r: Option<
        (RpcRequest, Option<ExtnMessage>),
    >)
        requires
            old(self).state.platform_state.wf(),
        ensures
            final(self).state.platform_state.wf(),
            final(self).state.extn_state == old(self).state.extn_state,
            final(self).state.platform_state == (PlatformState {
                session_state: final(self).state.platform_state.session_state,
                ..old(self).state.platform_state
            }),
            command matches FireboltGatewayCommand::RegisterSession { session_id, session } ==> r is None
                && final(self).state.platform_state.session_state.spec_has_session(session_id@)
                && final(self).state.platform_state.session_state.spec_session_for(session_id@)
                == session && forall|sid: Seq<char>|
                sid != session_id@ ==> final(self).state.platform_state.session_state.spec_has_session(sid) == old(self).state.platform_state.session_state.spec_has_session(sid),
            command matches FireboltGatewayCommand::UnregisterSession { session_id, cid } ==> r is None
                && forall|i: int|
                0 <= i < final(self).state.platform_state.session_state.sessions@.len() ==> (
                #[trigger] final(self).state.platform_state.session_state.sessions@[i]).session.cid@
                    != cid@,
            command matches FireboltGatewayCommand::HandleRpc { request } ==> *final(self) == *old(self) && (r matches Some(p) && p.0 == request && p.1 is None),
            command matches FireboltGatewayCommand::HandleRpcForExtn { msg } ==> *final(self) == *old(self) && (match msg.payload_request {
                Some(req) => (r matches Some(p) && p.0 == req && p.1 == Some(msg)),
                None => r is None,
            }),
    {
        match command {
            FireboltGatewayCommand::RegisterSession { session_id, session } => {
                self.state.platform_state.session_state.add_session(session_id, session);
                None
            },
            FireboltGatewayCommand::UnregisterSession { session_id: _, cid } => {
                self.state.platform_state.session_state.clear_session(cid.as_str());
                None
            },
            FireboltGatewayCommand::HandleRpc { request } => Some((request, None)),
            FireboltGatewayCommand::HandleRpcForExtn { msg } => {
                match &msg.payload_request {
                    Some(req) => {
                        let req = req.clone();
                        Some((req, Some(msg)))
                    },
                    None => None,
                }
            },
        }
    }

    /// Handles one request to its terminal outcome, with the decisions the
    /// dispatch loop's spawned task makes: prerequisites, normalization,
    /// validation, the gatekeeper, brokerage, then routing. `now` stamps
    /// grant-expiry checks; `start_ms` and `end_ms` bound the work for the
    /// telemetry latency. A request whose protocol is not `Extn` is only
    /// ever handled with a live session, and only a method present in the
    /// router's table is routed.
    #[verifier::rlimit(60)]
    pub fn handle(
        &self,
        request: RpcRequest,
        extn_msg: Option<ExtnMessage>,
        now: u64,
        start_ms: i64,
        end_ms: i64,
    ) -> (r: RequestOutcome)
        requires
            self.state.platform_state.wf(),
        ensures
            ({
                let platform = self.state.platform_state;
                let m = spec_lowercase_module(request.method@);
                let prereq = spec_prereq_ok(platform, request, extn_msg);
                let valid = crate::openrpc::spec_params_valid(
                    platform.open_rpc_state,
                    m,
                    request.params_json@,
                );
                let gate_ok = spec_gate_ok(
                    platform.cap_state,
                    platform.apps,
                    platform.open_rpc_state,
                    m,
                    request.ctx.app_id@,
                    now,
                );
                let brokered = spec_brokered(platform.endpoint_state.rules@, m);
                &&& (r is Dropped <==> !prereq)
                &&& (!(r is Dropped) && request.ctx.protocol != ApiProtocol::Extn
                    ==> platform.session_state.spec_has_session(request.ctx.session_id@))
                &&& (r matches RequestOutcome::InvalidParams { reply, telemetry } ==> !valid
                    && telemetry_matches(
                    request,
                    m,
                    JSON_RPC_STANDARD_ERROR_INVALID_PARAMS as int,
                    start_ms as int,
                    end_ms as int,
                    telemetry,
                ) && is_lowercase_module(m) && reply_matches(
                    platform,
                    request,
                    JSON_RPC_STANDARD_ERROR_INVALID_PARAMS as int,
                    "invalid parameters for "@ + m,
                    reply,
                ))
                &&& (prereq && !valid ==> r is InvalidParams)
                &&& (r matches RequestOutcome::Denied { reason, caps, reply, telemetry } ==> valid
                    && !gate_ok && reason == spec_deny_reason(
                    platform.cap_state,
                    platform.apps,
                    platform.open_rpc_state,
                    m,
                    request.ctx.app_id@,
                    now,
                ) && caps@ == spec_deny_caps(
                    platform.cap_state,
                    platform.apps,
                    platform.open_rpc_state,
                    m,
                    request.ctx.app_id@,
                    now,
                ) && telemetry_matches(
                    request,
                    m,
                    spec_rpc_error_code(reason),
                    start_ms as int,
                    end_ms as int,
                    telemetry,
                ) && is_lowercase_module(m) && reply_matches(
                    platform,
                    request,
                    spec_rpc_error_code(reason),
                    spec_rpc_error_message(reason, caps@),
                    reply,
                ))
                &&& (prereq && valid && !gate_ok ==> r is Denied)
                &&& (r matches RequestOutcome::Brokered { method } ==> valid && gate_ok && brokered
                    && method@ == m)
                &&& (prereq && valid && gate_ok && brokered ==> r is Brokered)
                &&& (r matches RequestOutcome::RoutedExtn { method } ==> valid && gate_ok
                    && !brokered && request.ctx.protocol == ApiProtocol::Extn && method@ == m
                    && is_lowercase_module(m))
                &&& (r matches RequestOutcome::Routed { method, session } ==> valid && gate_ok
                    && !brokered && request.ctx.protocol != ApiProtocol::Extn && methods_names(
                    platform.router_state.methods,
                ).contains(m) && platform.session_state.spec_has_session(request.ctx.session_id@)
                    && session == platform.session_state.spec_session_for(request.ctx.session_id@)
                    && method@ == m && is_lowercase_module(m))
                &&& (r matches RequestOutcome::MethodMissing { method } ==> valid && gate_ok
                    && !brokered && request.ctx.protocol != ApiProtocol::Extn && !methods_names(
                    platform.router_state.methods,
                ).contains(m) && method@ == m)
                &&& (prereq && valid && gate_ok && !brokered && request.ctx.protocol
                    == ApiProtocol::Extn ==> r is RoutedExtn)
                &&& (prereq && valid && gate_ok && !brokered && request.ctx.protocol
                    != ApiProtocol::Extn ==> (r is Routed || r is MethodMissing))
            }),
    {
        let platform_state = &self.state.platform_state;
        let prereq = match request.ctx.protocol {
            ApiProtocol::Extn => match &extn_msg {
                Some(em) => em.has_callback,
                None => false,
            },
            _ => platform_state.session_state.has_session(&request.ctx),
        };
        if !prereq {
            return RequestOutcome::Dropped;
        }
        proof {
            lemma_lowercase_module_idempotent(request.method@);
        }
        let method = name_with_lowercase_module(request.method.as_str());
        let mut request_c = request.clone();
        request_c.method = method;
        match crate::openrpc::validate_request(&platform_state.open_rpc_state, &request_c) {
            Err(error_string) => {
                let telemetry = RpcRouter::log_rdk_telemetry_message(
                    request.ctx.app_id.clone(),
                    request_c.method.clone(),
                    JSON_RPC_STANDARD_ERROR_INVALID_PARAMS,
                    sat_sub_i64(end_ms, start_ms),
                );
                let json_rpc_error = JsonRpcError {
                    code: JSON_RPC_STANDARD_ERROR_INVALID_PARAMS,
                    message: error_string,
                    data: None,
                };
                let reply = send_json_rpc_error(platform_state, &request, json_rpc_error);
                return RequestOutcome::InvalidParams { reply, telemetry };
            },
            Ok(()) => {},
        }
        match FireboltGatekeeper::gate(
            &platform_state.cap_state,
            &platform_state.apps,
            &platform_state.open_rpc_state,
            &request_c,
            now,
        ) {
            Err(e) => {
                let code = e.reason.rpc_error_code();
                let message = e.reason.rpc_error_message(&e.caps);
                let telemetry = RpcRouter::log_rdk_telemetry_message(
                    request.ctx.app_id.clone(),
                    request_c.method.clone(),
                    code,
                    sat_sub_i64(end_ms, start_ms),
                );
                let json_rpc_error = JsonRpcError { code, message, data: None };
                let reply = send_json_rpc_error(platform_state, &request, json_rpc_error);
                return RequestOutcome::Denied { reason: e.reason, caps: e.caps, reply, telemetry };
            },
            Ok(()) => {},
        }
        if platform_state.endpoint_state.handle_brokerage(&request_c) {
            return RequestOutcome::Brokered { method: request_c.method };
        }
        match request.ctx.protocol {
            ApiProtocol::Extn => RequestOutcome::RoutedExtn { method: request_c.method },
            _ => {
                if platform_state.router_state.has_method(request_c.method.as_str()) {
                    match platform_state.session_state.get_session(&request_c.ctx) {
                        Some(session) => RequestOutcome::Routed {
                            method: request_c.method,
                            session,
                        },
                        None => {
                            proof {
                                assert(false);
                            }
                            RequestOutcome::Dropped
                        },
                    }
                } else {
                    RequestOutcome::MethodMissing { method: request_c.method }
                }
            },
        }
    }
}

} // verus!
