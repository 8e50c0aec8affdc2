//! The gatekeeper: before a request is routed, every capability its method
//! needs must be supported by the device, currently available, permitted to
//! the calling app, and — where grant-gated — covered by a live user grant.
//! The first failing axis names the deny reason and the capabilities that
//! failed it.

use vstd::prelude::*;
use crate::apps::AppRegistry;
use crate::errors::DenyReason;
use crate::grants::{spec_grant_honored, CapabilityRole, GrantState, GrantStatus};
use crate::openrpc::OpenRpcState;
use crate::rpc::RpcRequest;
use crate::text::{contains_str, str_eq, vec_contains_str};

verus! {

/// A deny reason together with the capabilities that provoked it.
#[derive(Debug)]
pub struct DenyReasonWithCap {
    pub reason: DenyReason,
    pub caps: Vec<String>,
}

/// Device-side capability state: what the device supports at all, what is
/// currently available, and the user-grant store.
#[derive(Debug)]
pub struct CapState {
    pub grant_state: GrantState,
    pub supported: Vec<String>,
    pub available: Vec<String>,
}

/// The capabilities of `caps` that do not appear in `listed`.
pub open spec fn not_listed(caps: Seq<String>, listed: Seq<String>) -> Seq<String>
    decreases caps.len(),
{
    if caps.len() == 0 {
        Seq::<String>::empty()
    } else {
        let rest = not_listed(caps.drop_last(), listed);
        if contains_str(listed, caps.last()@) {
            rest
        } else {
            rest.push(caps.last())
        }
    }
}

/// Whether the app's manifest permits the capability (required or
/// optional use).
pub open spec fn spec_permitted(reg: AppRegistry, app_id: Seq<char>, cap: Seq<char>) -> bool {
    reg.spec_has_app(app_id) && (contains_str(
        reg.spec_manifest_for(app_id).capabilities.used.required@,
        cap,
    ) || contains_str(reg.spec_manifest_for(app_id).capabilities.used.optional@, cap))
}

/// The capabilities of `caps` the app is not permitted to use.
pub open spec fn not_permitted(caps: Seq<String>, reg: AppRegistry, app_id: Seq<char>) -> Seq<
    String,
>
    decreases caps.len(),
{
    if caps.len() == 0 {
        Seq::<String>::empty()
    } else {
        let rest = not_permitted(caps.drop_last(), reg, app_id);
        if spec_permitted(reg, app_id, caps.last()@) {
            rest
        } else {
            rest.push(caps.last())
        }
    }
}

/// Whether the store holds a live Allowed grant for the app's use of the
/// capability.
pub open spec fn spec_has_valid_allowed(
    gs: GrantState,
    app_id: Seq<char>,
    cap: Seq<char>,
    now: u64,
) -> bool {
    exists|k: int|
        0 <= k < gs.spec_entries_for(Some(app_id)).len() && {
            let e = #[trigger] gs.spec_entries_for(Some(app_id))[k];
            e.capability@ == cap && e.role == CapabilityRole::Use && e.status == Some(
                GrantStatus::Allowed,
            ) && spec_grant_honored(e, now)
        }
}

/// The grant-gated capabilities of `caps` without a live Allowed grant for
/// the app.
pub open spec fn not_granted(
    caps: Seq<String>,
    gs: GrantState,
    app_id: Seq<char>,
    now: u64,
) -> Seq<String>
    decreases caps.len(),
{
    if caps.len() == 0 {
        Seq::<String>::empty()
    } else {
        let rest = not_granted(caps.drop_last(), gs, app_id, now);
        if contains_str(gs.grant_gated@, caps.last()@) && !spec_has_valid_allowed(
            gs,
            app_id,
            caps.last()@,
            now,
        ) {
            rest.push(caps.last())
        } else {
            rest
        }
    }
}

/// The capabilities the method needs, per the catalog; a method outside the
/// catalog needs none.
pub open spec fn spec_method_caps(open_rpc: OpenRpcState, method: Seq<char>) -> Seq<String> {
    if open_rpc.spec_has_method(method) {
        open_rpc.spec_method(method).caps@
    } else {
        Seq::<String>::empty()
    }
}

/// What the gatekeeper answers: `Ok` exactly when every axis passes, else
/// the first failing axis with the capabilities that failed it.
pub open spec fn spec_gate_ok(
    cap_state: CapState,
    apps: AppRegistry,
    open_rpc: OpenRpcState,
    method: Seq<char>,
    app_id: Seq<char>,
    now: u64,
) -> bool {
    let caps = spec_method_caps(open_rpc, method);
    &&& not_listed(caps, cap_state.supported@).len() == 0
    &&& not_listed(caps, cap_state.available@).len() == 0
    &&& not_permitted(caps, apps, app_id).len() == 0
    &&& not_granted(caps, cap_state.grant_state, app_id, now).len() == 0
}

/// The reason a denied request is denied: the first failing axis.
pub open spec fn spec_deny_reason(
    cap_state: CapState,
    apps: AppRegistry,
    open_rpc: OpenRpcState,
    method: Seq<char>,
    app_id: Seq<char>,
    now: u64,
) -> DenyReason {
    let caps = spec_method_caps(open_rpc, method);
    if not_listed(caps, cap_state.supported@).len() > 0 {
        DenyReason::Unsupported
    } else if not_listed(caps, cap_state.available@).len() > 0 {
        DenyReason::Unavailable
    } else if not_permitted(caps, apps, app_id).len() > 0 {
        DenyReason::Unpermitted
    } else {
        DenyReason::GrantDenied
    }
}

/// The capabilities a denied request is denied for: those failing its
/// first failing axis.
pub open spec fn spec_deny_caps(
    cap_state: CapState,
    apps: AppRegistry,
    open_rpc: OpenRpcState,
    method: Seq<char>,
    app_id: Seq<char>,
    now: u64,
) -> Seq<String> {
    let caps = spec_method_caps(open_rpc, method);
    if not_listed(caps, cap_state.supported@).len() > 0 {
        not_listed(caps, cap_state.supported@)
    } else if not_listed(caps, cap_state.available@).len() > 0 {
        not_listed(caps, cap_state.available@)
    } else if not_permitted(caps, apps, app_id).len() > 0 {
        not_permitted(caps, apps, app_id)
    } else {
        not_granted(caps, cap_state.grant_state, app_id, now)
    }
}

impl GrantState {
    /// Whether a live Allowed grant covers the app's use of the capability.
    pub fn has_valid_allowed(&self, app_id: &str, cap: &str, now: u64) -> (r: bool)
        requires
            self.wf(),
        ensures
            r == spec_has_valid_allowed(*self, app_id@, cap@, now),
    {
        let entries = self.get_grant_entries_for_app_id(String::from_str(app_id));
        let n = entries.len();
        let mut i: usize = 0;
        while i < n
            invariant
                n == entries@.len(),
                entries@ == self.spec_entries_for(Some(app_id@)),
                i <= n,
                forall|k: int|
                    0 <= k < i ==> !{
                        let e = #[trigger] entries@[k];
                        e.capability@ == cap@ && e.role == CapabilityRole::Use && e.status == Some(
                            GrantStatus::Allowed,
                        ) && spec_grant_honored(e, now)
                    },
            decreases n - i,
        {
            let e = &entries[i];
            let status_allowed = match e.status {
                Some(GrantStatus::Allowed) => true,
                _ => false,
            };
            if str_eq(e.capability.as_str(), cap) && e.role == CapabilityRole::Use && status_allowed
                && e.is_honored(now) {
                return true;
            }
            i = i + 1;
        }
        false
    }
}

/// The policy evaluator.
pub struct FireboltGatekeeper;

impl FireboltGatekeeper {
    /// Admits or denies the request, as `spec_gate_ok` and the axis filters
    /// state.
    pub fn gate(
        cap_state: &CapState,
        apps: &AppRegistry,
        open_rpc: &OpenRpcState,
        request: &RpcRequest,
        now: u64,
    ) -> (r: Result<(), DenyReasonWithCap>)
        requires
            cap_state.grant_state.wf(),
            apps.wf(),
            open_rpc.wf(),
        ensures
            r is Ok <==> spec_gate_ok(
                *cap_state,
                *apps,
                *open_rpc,
                request.method@,
                request.ctx.app_id@,
                now,
            ),
            r matches Err(e) ==> e.caps@.len() > 0 && e.reason == spec_deny_reason(
                *cap_state,
                *apps,
                *open_rpc,
                request.method@,
                request.ctx.app_id@,
                now,
            ) && e.caps@ == spec_deny_caps(
                *cap_state,
                *apps,
                *open_rpc,
                request.method@,
                request.ctx.app_id@,
                now,
            ),
    {
        let empty: Vec<String> = Vec::new();
        let caps: &Vec<String> = match open_rpc.get_method_by_name(request.method.as_str()) {
            Some(entry) => &entry.caps,
            None => &empty,
        };
        proof {
            assert(caps@ == spec_method_caps(*open_rpc, request.method@));
        }
        let unsupported = filter_not_listed(caps, &cap_state.supported);
        if unsupported.len() > 0 {
            return Err(DenyReasonWithCap { reason: DenyReason::Unsupported, caps: unsupported });
        }
        let unavailable = filter_not_listed(caps, &cap_state.available);
        if unavailable.len() > 0 {
            return Err(DenyReasonWithCap { reason: DenyReason::Unavailable, caps: unavailable });
        }
        let unpermitted = filter_not_permitted(caps, apps, request.ctx.app_id.as_str());
        if unpermitted.len() > 0 {
            return Err(DenyReasonWithCap { reason: DenyReason::Unpermitted, caps: unpermitted });
        }
        let ungranted = filter_not_granted(
            caps,
            &cap_state.grant_state,
            request.ctx.app_id.as_str(),
            now,
        );
        if ungranted.len() > 0 {
            return Err(DenyReasonWithCap { reason: DenyReason::GrantDenied, caps: ungranted });
        }
        Ok(())
    }
}

fn filter_not_listed(caps: &Vec<String>, listed: &Vec<String>) -> (r: Vec<String>)
    ensures
        r@ == not_listed(caps@, listed@),
{
    let n = caps.len();
    let mut r: Vec<String> = Vec::new();
    let mut i: usize = 0;
    while i < n
        invariant
            n == caps@.len(),
            i <= n,
            r@ == not_listed(caps@.take(i as int), listed@),
        decreases n - i,
    {
        if !vec_contains_str(listed, caps[i].as_str()) {
            r.push(caps[i].clone());
        }
        proof {
            assert(caps@.take(i + 1 as int).drop_last() =~= caps@.take(i as int));
            assert(caps@.take(i + 1 as int).last() == caps@[i as int]);
        }
        i = i + 1;
    }
    proof {
        assert(caps@.take(n as int) =~= caps@);
    }
    r
}

fn filter_not_permitted(caps: &Vec<String>, apps: &AppRegistry, app_id: &str) -> (r: Vec<String>)
    requires
        apps.wf(),
    ensures
        r@ == not_permitted(caps@, *apps, app_id@),
{
    let n = caps.len();
    let mut r: Vec<String> = Vec::new();
    let mut i: usize = 0;
    while i < n
        invariant
            apps.wf(),
            n == caps@.len(),
            i <= n,
            r@ == not_permitted(caps@.take(i as int), *apps, app_id@),
        decreases n - i,
    {
        let ok = match apps.get_manifest(app_id) {
            Some(m) => m.is_permitted(caps[i].as_str()),
            None => false,
        };
        if !ok {
            r.push(caps[i].clone());
        }
        proof {
            assert(caps@.take(i + 1 as int).drop_last() =~= caps@.take(i as int));
            assert(caps@.take(i + 1 as int).last() == caps@[i as int]);
        }
        i = i + 1;
    }
    proof {
        assert(caps@.take(n as int) =~= caps@);
    }
    r
}

fn filter_not_granted(caps: &Vec<String>, gs: &GrantState, app_id: &str, now: u64) -> (r: Vec<
    String,
>)
    requires
        gs.wf(),
    ensures
        r@ == not_granted(caps@, *gs, app_id@, now),
{
    let n = caps.len();
    let mut r: Vec<String> = Vec::new();
    let mut i: usize = 0;
    while i < n
        invariant
            gs.wf(),
            n == caps@.len(),
            i <= n,
            r@ == not_granted(caps@.take(i as int), *gs, app_id@, now),
        decreases n - i,
    {
        if vec_contains_str(&gs.grant_gated, caps[i].as_str()) && !gs.has_valid_allowed(
            app_id,
            caps[i].as_str(),
            now,
        ) {
            r.push(caps[i].clone());
        }
        proof {
            assert(caps@.take(i + 1 as int).drop_last() =~= caps@.take(i as int));
            assert(caps@.take(i + 1 as int).last() == caps@[i as int]);
        }
        i = i + 1;
    }
    proof {
        assert(caps@.take(n as int) =~= caps@);
    }
    r
}

} // verus!
