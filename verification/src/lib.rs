//! Core of an on-device Firebolt gateway: a request-dispatch fabric that
//! authorizes JSON-RPC calls from applications against a capability and
//! user-grant policy, validates their parameters, and routes them to an
//! in-process handler, an extension channel, or an external broker.
//!
//! The crate is organized leaves-first: identity and error types, then the
//! method catalog, session registry, grant store and gatekeeper, and finally
//! the gateway dispatch pipeline that ties them together.

pub mod advertising;
pub mod apps;
pub mod broker;
pub mod device;
pub mod errors;
pub mod extn_id;
pub mod gatekeeper;
pub mod gateway;
pub mod grants;
pub mod json_out;
pub mod json_values;
pub mod kvlist;
pub mod loader;
pub mod metrics;
pub mod openrpc;
pub mod platform;
pub mod privacy;
pub mod registry;
pub mod rpc;
pub mod session;
pub mod text;
pub mod user_grants;
