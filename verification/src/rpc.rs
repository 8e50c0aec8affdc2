//! The request records that flow through the gateway: call contexts,
//! RPC requests, reply frames, and telemetry records.

use vstd::prelude::*;

verus! {

/// Over which kind of transport a request reached the gateway.
#[derive(Debug, Clone, Copy, PartialEq, Eq, Structural)]
pub enum ApiProtocol {
    Bridge,
    Extn,
    JsonRpc,
}

/// Identity of one in-flight call: who asked, over which session, and the
/// caller-chosen correlation id.
#[derive(Debug)]
pub struct CallContext {
    pub request_id: String,
    pub call_id: u64,
    pub app_id: String,
    pub protocol: ApiProtocol,
    pub session_id: String,
}

impl Clone for CallContext {
    fn clone(&self) -> (res: Self)
        ensures
            res == *self,
    {
        CallContext {
            request_id: self.request_id.clone(),
            call_id: self.call_id,
            app_id: self.app_id.clone(),
            protocol: self.protocol,
            session_id: self.session_id.clone(),
        }
    }
}

/// One RPC request: its context, the method asked for, and the raw JSON
/// text of the parameter array.
#[derive(Debug)]
pub struct RpcRequest {
    pub ctx: CallContext,
    pub method: String,
    pub params_json: String,
}

impl Clone for RpcRequest {
    fn clone(&self) -> (res: Self)
        ensures
            res == *self,
    {
        RpcRequest {
            ctx: self.ctx.clone(),
            method: self.method.clone(),
            params_json: self.params_json.clone(),
        }
    }
}

/// A serialized reply frame on its way back to a session.
#[derive(Debug)]
pub struct ApiMessage {
    pub protocol: ApiProtocol,
    pub jsonrpc_msg: String,
    pub request_id: String,
}

impl ApiMessage {
    pub fn new(protocol: ApiProtocol, jsonrpc_msg: String, request_id: String) -> (r: Self)
        ensures
            r.protocol == protocol,
            r.jsonrpc_msg == jsonrpc_msg,
            r.request_id == request_id,
    {
        ApiMessage { protocol, jsonrpc_msg, request_id }
    }
}

/// An internal message from an extension. Its payload may carry an RPC
/// request, and it may carry an inline callback for the reply.
#[derive(Debug)]
pub struct ExtnMessage {
    pub payload_request: Option<RpcRequest>,
    pub has_callback: bool,
}

/// The error member of a JSON-RPC reply. `data`, when present, holds
/// already-serialized JSON and is omitted from the frame when absent.
#[derive(Debug)]
pub struct JsonRpcError {
    pub code: i32,
    pub message: String,
    pub data: Option<String>,
}

/// A JSON-RPC reply frame: the protocol tag is always "2.0", the id echoes
/// the call id of the request.
#[derive(Debug)]
pub struct JsonRpcMessage {
    pub id: u64,
    pub error: Option<JsonRpcError>,
}

/// One RDK-telemetry record, emitted on a terminal outcome.
#[derive(Debug)]
pub struct TelemetryRecord {
    pub app_id: String,
    pub method: String,
    pub code: i32,
    pub latency_ms: i64,
}

} // verus!
