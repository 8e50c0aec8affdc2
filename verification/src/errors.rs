//! RPC error taxonomy: the reasons a request can be denied, the stable
//! error-code table, and the user-facing messages built from the capability
//! list involved.

use vstd::prelude::*;
use crate::text::{join_comma, spec_join_comma};

verus! {

/// A type that can be surfaced to a caller as a JSON-RPC error: each
/// implementation states which code and message its values map to, and the
/// executable methods are held to that mapping.
pub trait RpcError {
    type E;

    /// The code a value is reported as.
    spec fn spec_code(&self) -> int;

    /// The message a value is reported with.
    spec fn spec_message(&self, error_type: Self::E) -> Seq<char>;

    fn get_rpc_error_code(&self) -> (r: i32)
        ensures
            r as int == self.spec_code();

    fn get_rpc_error_message(&self, error_type: Self::E) -> (r: String)
        ensures
            r@ == self.spec_message(error_type);
}

/// Why the gatekeeper refused a request.
#[derive(Clone, Copy, Debug, PartialEq, Eq, Structural)]
pub enum DenyReason {
    Unpermitted,
    Unsupported,
    Disabled,
    Unavailable,
    GrantDenied,
    Ungranted,
}

pub const CAPABILITY_NOT_AVAILABLE: i32 = -50300;

pub const CAPABILITY_NOT_SUPPORTED: i32 = -50100;

pub const CAPABILITY_GET_ERROR: i32 = -50200;

pub const CAPABILITY_NOT_PERMITTED: i32 = -40300;

pub const JSON_RPC_STANDARD_ERROR_INVALID_PARAMS: i32 = -32602;

/// The stable code table: each deny reason maps to one RPC error code.
pub open spec fn spec_rpc_error_code(reason: DenyReason) -> int {
    match reason {
        DenyReason::Unavailable => CAPABILITY_NOT_AVAILABLE as int,
        DenyReason::Unsupported => CAPABILITY_NOT_SUPPORTED as int,
        DenyReason::GrantDenied => CAPABILITY_NOT_PERMITTED as int,
        DenyReason::Unpermitted => CAPABILITY_NOT_PERMITTED as int,
        _ => CAPABILITY_GET_ERROR as int,
    }
}

/// The user-facing message for a deny reason, over the comma-joined
/// capability list.
pub open spec fn spec_rpc_error_message(reason: DenyReason, caps: Seq<String>) -> Seq<char> {
    match reason {
        DenyReason::Unavailable => spec_join_comma(caps) + " is not available"@,
        DenyReason::Unsupported => spec_join_comma(caps) + " is not supported"@,
        DenyReason::GrantDenied => "The user denied access to "@ + spec_join_comma(caps),
        DenyReason::Unpermitted => spec_join_comma(caps) + " is not permitted"@,
        _ => "Error with "@ + spec_join_comma(caps),
    }
}

impl DenyReason {
    /// The RPC error code this reason is reported as.
    pub fn rpc_error_code(&self) -> (r: i32)
        ensures
            r as int == spec_rpc_error_code(*self),
    {
        match self {
            DenyReason::Unavailable => CAPABILITY_NOT_AVAILABLE,
            DenyReason::Unsupported => CAPABILITY_NOT_SUPPORTED,
            DenyReason::GrantDenied => CAPABILITY_NOT_PERMITTED,
            DenyReason::Unpermitted => CAPABILITY_NOT_PERMITTED,
            _ => CAPABILITY_GET_ERROR,
        }
    }

    /// The message this reason is reported with, naming the capabilities.
    pub fn rpc_error_message(&self, caps: &Vec<String>) -> (r: String)
        ensures
            r@ == spec_rpc_error_message(*self, caps@),
    {
        let joined = join_comma(caps);
        match self {
            DenyReason::Unavailable => {
                let mut m = joined;
                m.append(" is not available");
                m
            },
            DenyReason::Unsupported => {
                let mut m = joined;
                m.append(" is not supported");
                m
            },
            DenyReason::GrantDenied => {
                let mut m = String::new();
                m.append("The user denied access to ");
                m.append(joined.as_str());
                m
            },
            DenyReason::Unpermitted => {
                let mut m = joined;
                m.append(" is not permitted");
                m
            },
            _ => {
                let mut m = String::new();
                m.append("Error with ");
                m.append(joined.as_str());
                m
            },
        }
    }
}

impl RpcError for DenyReason {
    type E = Vec<String>;

    open spec fn spec_code(&self) -> int {
        spec_rpc_error_code(*self)
    }

    open spec fn spec_message(&self, caps: Vec<String>) -> Seq<char> {
        spec_rpc_error_message(*self, caps@)
    }

    fn get_rpc_error_code(&self) -> (r: i32) {
        self.rpc_error_code()
    }

    fn get_rpc_error_message(&self, caps: Vec<String>) -> (r: String) {
        self.rpc_error_message(&caps)
    }
}

} // verus!
