use firebolt_gateway::errors::DenyReason;
use firebolt_gateway::json_out::serialize_json_rpc_message;
use firebolt_gateway::rpc::{JsonRpcError, JsonRpcMessage};
use firebolt_gateway::text::name_with_lowercase_module;

#[test]
fn the_error_code_table_is_stable() {
    assert_eq!(DenyReason::Unavailable.rpc_error_code(), -50300);
    assert_eq!(DenyReason::Unsupported.rpc_error_code(), -50100);
    assert_eq!(DenyReason::GrantDenied.rpc_error_code(), -40300);
    assert_eq!(DenyReason::Unpermitted.rpc_error_code(), -40300);
    assert_eq!(DenyReason::Disabled.rpc_error_code(), -50200);
    assert_eq!(DenyReason::Ungranted.rpc_error_code(), -50200);
}

#[test]
fn deny_messages_join_the_capabilities() {
    let caps = vec!["a:b".to_owned(), "c:d".to_owned()];
    assert_eq!(
        DenyReason::GrantDenied.rpc_error_message(&caps),
        "The user denied access to a:b,c:d"
    );
    assert_eq!(DenyReason::Unavailable.rpc_error_message(&caps), "a:b,c:d is not available");
    assert_eq!(DenyReason::Unsupported.rpc_error_message(&caps), "a:b,c:d is not supported");
    assert_eq!(
        DenyReason::Unpermitted.rpc_error_message(&vec!["device:info".to_owned()]),
        "device:info is not permitted"
    );
    assert_eq!(DenyReason::Disabled.rpc_error_message(&caps), "Error with a:b,c:d");
    assert_eq!(DenyReason::Ungranted.rpc_error_message(&Vec::new()), "Error with ");
}

#[test]
fn reply_frames_serialize_exactly() {
    let ok_frame = JsonRpcMessage { id: 7, error: None };
    assert_eq!(serialize_json_rpc_message(&ok_frame), "{\"jsonrpc\":\"2.0\",\"id\":7}");

    let err_frame = JsonRpcMessage {
        id: 42,
        error: Some(JsonRpcError {
            code: -32602,
            message: "bad params".to_owned(),
            data: None,
        }),
    };
    assert_eq!(
        serialize_json_rpc_message(&err_frame),
        "{\"jsonrpc\":\"2.0\",\"id\":42,\"error\":{\"code\":-32602,\"message\":\"bad params\"}}"
    );
}

#[test]
fn reply_frames_escape_the_message() {
    let frame = JsonRpcMessage {
        id: 1,
        error: Some(JsonRpcError {
            code: -50200,
            message: "say \"hi\"\nback\\now\u{1}".to_owned(),
            data: Some("{\"k\":3}".to_owned()),
        }),
    };
    assert_eq!(
        serialize_json_rpc_message(&frame),
        "{\"jsonrpc\":\"2.0\",\"id\":1,\"error\":{\"code\":-50200,\"message\":\"say \\\"hi\\\"\\nback\\\\now\\u0001\",\"data\":{\"k\":3}}}"
    );
}

#[test]
fn frames_round_trip_through_a_json_parser() {
    let frame = JsonRpcMessage {
        id: 9,
        error: Some(JsonRpcError {
            code: -40300,
            message: "tab\there".to_owned(),
            data: None,
        }),
    };
    let text = serialize_json_rpc_message(&frame);
    let value: serde_json::Value = serde_json::from_str(&text).expect("well-formed JSON");
    assert_eq!(value["jsonrpc"], "2.0");
    assert_eq!(value["id"], 9);
    assert_eq!(value["error"]["code"], -40300);
    assert_eq!(value["error"]["message"], "tab\there");
}

#[test]
fn module_segment_is_lowercased_and_the_tail_kept() {
    assert_eq!(name_with_lowercase_module("Device.Model"), "device.Model");
    assert_eq!(name_with_lowercase_module("AcccountLink.signIn"), "acccountlink.signIn");
    assert_eq!(name_with_lowercase_module("nodots"), "nodots");
    assert_eq!(name_with_lowercase_module("A.B.C"), "a.b.C");
    assert_eq!(name_with_lowercase_module(""), "");
}
