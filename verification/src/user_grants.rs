//! The user-grant RPC handlers: listing recorded grants per app, per
//! device or per capability, and applying grant, deny and clear mutations.

use vstd::prelude::*;
use crate::grants::{
    entry_wf, modified_entries, opt_str_view, spec_lifespan_string, spec_role_string,
    spec_status_string, CapabilityRole, GrantEntry, GrantStateModify,
};
use crate::platform::PlatformState;
use crate::rpc::CallContext;
use crate::text::contains_str;

verus! {

/// An RPC-level failure, carried back to the caller.
#[derive(Debug)]
pub struct RpcCallError {
    pub message: String,
}

/// Builds an RPC-level failure from its message.
pub fn rpc_err(message: &str) -> (r: RpcCallError)
    ensures
        r.message@ == message@,
{
    RpcCallError { message: String::from_str(message) }
}

/// The app a grant belongs to, as shown to callers.
#[derive(Debug)]
pub struct AppInfo {
    pub id: String,
    pub title: Option<String>,
}

/// One grant as shown to callers: the wire names of its status, role and
/// lifespan, and the RFC 3339 instant it expires at, when it does.
#[derive(Debug)]
pub struct GrantInfo {
    pub app: Option<AppInfo>,
    pub state: String,
    pub capability: String,
    pub role: String,
    pub lifespan: String,
    pub expires: Option<String>,
}

#[derive(Debug)]
pub struct GetUserGrantsByAppRequest {
    pub app_id: String,
}

#[derive(Debug)]
pub struct GetUserGrantsByCapabilityRequest {
    pub capability: String,
}

/// Options of a grant mutation: the app it scopes to, or the device when
/// absent.
#[derive(Debug)]
pub struct GrantModificationOptions {
    pub app_id: Option<String>,
}

/// One grant mutation request.
#[derive(Debug)]
pub struct GrantRequest {
    pub role: CapabilityRole,
    pub capability: String,
    pub options: Option<GrantModificationOptions>,
}

/// The RFC 3339 rendering of an epoch second. A function of the second
/// alone.
pub uninterp spec fn rfc3339_of(secs: int) -> Seq<char>;

/// The last epoch second chrono can represent: 23:59:59 on the last day of
/// its largest year, 262142. That day is 95,745,399 days from the calendar
/// epoch and the UNIX epoch is day 719,163 of the same count, so the bound
/// is (95,745,399 - 719,163) * 86,400 + 86,399.
pub const MAX_RFC3339_EPOCH_SECS: u64 = 8210266876799;

/// Relies on chrono's `DateTime::from_timestamp_secs` and `to_rfc3339`:
/// the RFC 3339 text of the epoch second, depending on it alone; it exists
/// exactly up to chrono's largest representable date. The second must fit
/// the signed timestamp the call takes, else the cast would wrap.
#[verifier::external_body]
fn rfc3339_utc(secs: u64) -> (r: Option<String>)
    requires
        secs <= i64::MAX as u64,
    ensures
        r is Some <==> secs <= MAX_RFC3339_EPOCH_SECS,
        r matches Some(s) ==> s@ == rfc3339_of(secs as int),
{
    match chrono::DateTime::from_timestamp_secs(secs as i64) {
        Some(dt) => Some(dt.to_rfc3339()),
        None => None,
    }
}

/// How a shown grant's fields relate to its recorded entry: the wire
/// names of status, role and lifespan, the capability, and the expiry
/// instant exactly when a representable ttl is recorded.
pub open spec fn grant_info_fields_match(e: GrantEntry, info: GrantInfo) -> bool {
    &&& info.state@ == spec_status_string(e.status->0)
    &&& info.capability@ == e.capability@
    &&& info.role@ == spec_role_string(e.role)
    &&& info.lifespan@ == spec_lifespan_string(e.lifespan->0)
    &&& (match e.lifespan_ttl_in_secs {
        None => info.expires is None,
        Some(t) => if e.last_modified_time + t <= MAX_RFC3339_EPOCH_SECS {
            info.expires matches Some(x) && x@ == rfc3339_of(e.last_modified_time + t)
        } else {
            info.expires is None
        },
    })
}

/// How a shown grant relates to its recorded entry: same app scope and
/// title, and the fields as `grant_info_fields_match` states.
pub open spec fn grant_info_matches(
    app_id: Option<String>,
    app_name: Option<String>,
    e: GrantEntry,
    info: GrantInfo,
) -> bool {
    &&& (match app_id {
        Some(a) => info.app == Some(AppInfo { id: a, title: app_name }),
        None => info.app is None,
    })
    &&& grant_info_fields_match(e, info)
}

/// The same relation with the app named by text and no title, as the
/// per-capability listing shows entries.
pub open spec fn grant_info_matches_view(app_id: Seq<char>, e: GrantEntry, info: GrantInfo) -> bool {
    &&& (info.app matches Some(ai) && ai.id@ == app_id && ai.title is None)
    &&& grant_info_fields_match(e, info)
}

/// How a listing relates to a sequence of per-app groups: it is exactly
/// the groups' entries transformed in order, each under its group's app.
pub open spec fn listing_matches(
    groups: Seq<(Seq<char>, Seq<GrantEntry>)>,
    v: Seq<GrantInfo>,
) -> bool
    decreases groups.len(),
{
    if groups.len() == 0 {
        v.len() == 0
    } else {
        let g = groups.last();
        let n = g.1.len();
        &&& v.len() >= n
        &&& listing_matches(groups.drop_last(), v.take(v.len() - n))
        &&& (forall|k: int|
            0 <= k < n ==> grant_info_matches_view(g.0, g.1[k], #[trigger] v[v.len() - n + k]))
    }
}

/// What the app manager answered a name query with.
#[derive(Debug)]
pub enum AppManagerResponse {
    AppName(Option<String>),
    Other,
}

/// The user-grant RPC surface over the platform.
#[derive(Debug)]
pub struct UserGrantsImpl {
    pub platform_state: PlatformState,
}

impl UserGrantsImpl {
    /// Resolves an app's display title from the app manager's reply:
    /// `None` where the request could not even be sent, `Other` where it
    /// answered beside the question.
    pub fn get_app_title(app_id: &str, response: Option<AppManagerResponse>) -> (r: Result<
        Option<String>,
        RpcCallError,
    >)
        ensures
            response matches Some(AppManagerResponse::AppName(title)) ==> r == Ok::<
                Option<String>,
                RpcCallError,
            >(title),
            response matches Some(AppManagerResponse::Other) ==> (r matches Err(e) && e.message@
                == "Failed to get App Title for "@ + app_id@),
            response is None ==> (r matches Err(e) && e.message@ == "Failed to get App Name for "@
                + app_id@),
    {
        match response {
            Some(AppManagerResponse::AppName(title)) => Ok(title),
            Some(AppManagerResponse::Other) => {
                let mut m = String::new();
                m.append("Failed to get App Title for ");
                m.append(app_id);
                Err(RpcCallError { message: m })
            },
            None => {
                let mut m = String::new();
                m.append("Failed to get App Name for ");
                m.append(app_id);
                Err(RpcCallError { message: m })
            },
        }
    }
}

impl UserGrantsImpl {
    /// Transforms one recorded entry into its caller-facing shape. An
    /// `app_id` of `None` stands for the device.
    pub fn transform(
        app_id: Option<String>,
        app_name: Option<String>,
        entry: &GrantEntry,
    ) -> (r: GrantInfo)
        requires
            entry_wf(*entry),
        ensures
            grant_info_matches(app_id, app_name, *entry, r),
    {
        let status = match &entry.status {
            Some(s) => s.as_string(),
            None => String::new(),
        };
        let lifespan = match &entry.lifespan {
            Some(l) => l.as_string(),
            None => String::new(),
        };
        let expires = match entry.lifespan_ttl_in_secs {
            Some(ttl) => rfc3339_utc(entry.last_modified_time + ttl),
            None => None,
        };
        GrantInfo {
            app: match app_id {
                Some(id) => Some(AppInfo { id, title: app_name }),
                None => None,
            },
            state: status,
            capability: entry.capability.clone(),
            role: entry.role.as_string(),
            lifespan,
            expires,
        }
    }

    /// Transforms a list of recorded entries, all under one app scope and
    /// title.
    pub fn create_grantinfo_from_grant_entry_list(
        app_id: Option<String>,
        app_name: Option<String>,
        grant_entries: &Vec<GrantEntry>,
    ) -> (r: Vec<GrantInfo>)
        requires
            forall|i: int| 0 <= i < grant_entries@.len() ==> entry_wf(#[trigger] grant_entries@[i]),
        ensures
            r@.len() == grant_entries@.len(),
            forall|i: int|
                0 <= i < r@.len() ==> grant_info_matches(
                    app_id,
                    app_name,
                    grant_entries@[i],
                    #[trigger] r@[i],
                ),
    {
        let n = grant_entries.len();
        let mut r: Vec<GrantInfo> = Vec::new();
        let mut i: usize = 0;
        while i < n
            invariant
                n == grant_entries@.len(),
                forall|k: int|
                    0 <= k < grant_entries@.len() ==> entry_wf(#[trigger] grant_entries@[k]),
                i <= n,
                r@.len() == i,
                forall|k: int|
                    0 <= k < i ==> grant_info_matches(
                        app_id,
                        app_name,
                        grant_entries@[k],
                        #[trigger] r@[k],
                    ),
            decreases n - i,
        {
            let id_c = match &app_id {
                Some(a) => Some(a.clone()),
                None => None,
            };
            let name_c = match &app_name {
                Some(a) => Some(a.clone()),
                None => None,
            };
            let info = UserGrantsImpl::transform(id_c, name_c, &grant_entries[i]);
            r.push(info);
            i = i + 1;
        }
        r
    }

    /// Lists the grants recorded for the requested app. The app's display
    /// title, resolved by the app manager, is handed in.
    pub fn usergrants_app(
        &self,
        _ctx: &CallContext,
        request: GetUserGrantsByAppRequest,
        app_name: Option<String>,
    ) -> (r: Result<Vec<GrantInfo>, RpcCallError>)
        requires
            self.platform_state.wf(),
        ensures
            r matches Ok(v) && {
                let entries = self.platform_state.cap_state.grant_state.spec_entries_for(
                    Some(request.app_id@),
                );
                v@.len() == entries.len() && forall|i: int|
                    0 <= i < v@.len() ==> grant_info_matches(
                        Some(request.app_id),
                        app_name,
                        entries[i],
                        #[trigger] v@[i],
                    )
            },
    {
        let grant_entries = self.platform_state.cap_state.grant_state.get_grant_entries_for_app_id(
            request.app_id.clone(),
        );
        let infos = UserGrantsImpl::create_grantinfo_from_grant_entry_list(
            Some(request.app_id),
            app_name,
            &grant_entries,
        );
        Ok(infos)
    }

    /// Lists the device-scoped grants.
    pub fn usergrants_device(&self, _ctx: &CallContext) -> (r: Result<
        Vec<GrantInfo>,
        RpcCallError,
    >)
        requires
            self.platform_state.wf(),
        ensures
            r matches Ok(v) && {
                let entries = self.platform_state.cap_state.grant_state.spec_entries_for(None);
                v@.len() == entries.len() && forall|i: int|
                    0 <= i < v@.len() ==> grant_info_matches(
                        None,
                        None,
                        entries[i],
                        #[trigger] v@[i],
                    )
            },
    {
        let grant_entries = self.platform_state.cap_state.grant_state.get_device_entries();
        let infos = UserGrantsImpl::create_grantinfo_from_grant_entry_list(
            None,
            None,
            &grant_entries,
        );
        Ok(infos)
    }

    /// Lists every app's grants recorded for the requested capability: the
    /// concatenation, over the store's per-app groups for it, of the
    /// transformed matching entries, each under its group's app. Display
    /// titles are the caller's to resolve.
    pub fn usergrants_capability(
        &self,
        _ctx: &CallContext,
        request: GetUserGrantsByCapabilityRequest,
    ) -> (r: Result<Vec<GrantInfo>, RpcCallError>)
        requires
            self.platform_state.wf(),
        ensures
            r matches Ok(v) && listing_matches(
                crate::grants::spec_groups_for_cap(
                    self.platform_state.cap_state.grant_state.grants@,
                    request.capability@,
                ),
                v@,
            ),
    {
        let ghost gs = self.platform_state.cap_state.grant_state;
        let ghost sg = crate::grants::spec_groups_for_cap(gs.grants@, request.capability@);
        proof {
            crate::grants::lemma_groups_for_cap_wf(gs.grants@, request.capability@);
        }
        let groups = self.platform_state.cap_state.grant_state.get_grant_entries_for_capability(
            request.capability.as_str(),
        );
        let mut combined: Vec<GrantInfo> = Vec::new();
        let ng = groups.len();
        let mut g: usize = 0;
        while g < ng
            invariant
                ng == groups@.len(),
                ng == sg.len(),
                g <= ng,
                forall|j: int|
                    0 <= j < groups@.len() ==> (#[trigger] groups@[j]).0@ == sg[j].0
                        && groups@[j].1@ == sg[j].1,
                forall|j: int, k: int|
                    0 <= j < sg.len() && 0 <= k < sg[j].1.len() ==> entry_wf(
                        #[trigger] sg[j].1[k],
                    ),
                listing_matches(sg.take(g as int), combined@),
            decreases ng - g,
        {
            let app_id = groups[g].0.clone();
            let infos = UserGrantsImpl::create_grantinfo_from_grant_entry_list(
                Some(app_id),
                None,
                &groups[g].1,
            );
            let ghost infos0 = infos@;
            let ghost combined0 = combined@;
            let mut infos = infos;
            combined.append(&mut infos);
            proof {
                assert(sg.take(g + 1 as int).drop_last() =~= sg.take(g as int));
                assert(sg.take(g + 1 as int).last() == sg[g as int]);
                let n = sg[g as int].1.len() as int;
                assert(combined@.len() == combined0.len() + n);
                assert(combined@.take(combined@.len() - n) =~= combined0);
                assert forall|k: int| 0 <= k < n implies grant_info_matches_view(
                    sg[g as int].0,
                    sg[g as int].1[k],
                    #[trigger] combined@[combined@.len() - n + k],
                ) by {
                    assert(combined@[combined0.len() + k] == infos0[k]);
                    assert(grant_info_matches(
                        Some(groups@[g as int].0),
                        None,
                        groups@[g as int].1@[k],
                        infos0[k],
                    ));
                }
            }
            g = g + 1;
        }
        proof {
            assert(sg.take(ng as int) =~= sg);
        }
        Ok(combined)
    }

    /// Applies one grant mutation for the scope the request names; the
    /// mutation is accepted exactly when the capability is grant-gated.
    fn grant_modify_request(
        &mut self,
        modify: GrantStateModify,
        request: GrantRequest,
        now: u64,
    ) -> (r: bool)
        requires
            old(self).platform_state.wf(),
        ensures
            final(self).platform_state.wf(),
            final(self).platform_state == (PlatformState {
                cap_state: final(self).platform_state.cap_state,
                ..old(self).platform_state
            }),
            final(self).platform_state.cap_state.supported == old(self).platform_state.cap_state.supported,
            final(self).platform_state.cap_state.available == old(self).platform_state.cap_state.available,
            final(self).platform_state.cap_state.grant_state.grant_gated == old(
                self,
            ).platform_state.cap_state.grant_state.grant_gated,
            r == contains_str(
                old(self).platform_state.cap_state.grant_state.grant_gated@,
                request.capability@,
            ),
            !r ==> final(self).platform_state.cap_state.grant_state == old(self).platform_state.cap_state.grant_state,
            r ==> forall|other: Option<Seq<char>>|
                other != opt_str_view(
                    match request.options {
                        Some(o) => o.app_id,
                        None => None,
                    },
                ) ==> final(self).platform_state.cap_state.grant_state.spec_entries_for(other)
                    == old(self).platform_state.cap_state.grant_state.spec_entries_for(other),
            r ==> ({
                let key = opt_str_view(
                    match request.options {
                        Some(o) => o.app_id,
                        None => None,
                    },
                );
                modified_entries(
                    old(self).platform_state.cap_state.grant_state.spec_entries_for(key),
                    modify,
                    request.capability@,
                    request.role,
                    final(self).platform_state.cap_state.grant_state.spec_entries_for(key),
                    now,
                )
            }),
    {
        let app_id = match request.options {
            Some(o) => o.app_id,
            None => None,
        };
        self.platform_state.cap_state.grant_state.grant_modify(
            modify,
            app_id,
            request.role,
            request.capability,
            now,
        )
    }

    /// Records an Allowed grant for the request's scope, stamped `now`.
    pub fn usergrants_grant(
        &mut self,
        _ctx: &CallContext,
        request: GrantRequest,
        now: u64,
    ) -> (r: Result<(), RpcCallError>)
        requires
            old(self).platform_state.wf(),
        ensures
            final(self).platform_state.wf(),
            final(self).platform_state == (PlatformState {
                cap_state: final(self).platform_state.cap_state,
                ..old(self).platform_state
            }),
            final(self).platform_state.cap_state.supported == old(
                self,
            ).platform_state.cap_state.supported,
            final(self).platform_state.cap_state.available == old(
                self,
            ).platform_state.cap_state.available,
            final(self).platform_state.cap_state.grant_state.grant_gated == old(
                self,
            ).platform_state.cap_state.grant_state.grant_gated,
            r is Ok ==> forall|other: Option<Seq<char>>|
                other != opt_str_view(
                    match request.options {
                        Some(o) => o.app_id,
                        None => None,
                    },
                ) ==> final(self).platform_state.cap_state.grant_state.spec_entries_for(other)
                    == old(self).platform_state.cap_state.grant_state.spec_entries_for(other),
            r is Ok <==> contains_str(
                old(self).platform_state.cap_state.grant_state.grant_gated@,
                request.capability@,
            ),
            r is Ok ==> modified_entries(
                old(self).platform_state.cap_state.grant_state.spec_entries_for(
                    opt_str_view(
                        match request.options {
                            Some(o) => o.app_id,
                            None => None,
                        },
                    ),
                ),
                GrantStateModify::Grant,
                request.capability@,
                request.role,
                final(self).platform_state.cap_state.grant_state.spec_entries_for(
                    opt_str_view(
                        match request.options {
                            Some(o) => o.app_id,
                            None => None,
                        },
                    ),
                ),
                now,
            ),
            r matches Err(e) ==> e.message@ == "Unable to grant the capability"@ && final(self).platform_state.cap_state.grant_state == old(self).platform_state.cap_state.grant_state,
    {
        if self.grant_modify_request(GrantStateModify::Grant, request, now) {
            Ok(())
        } else {
            Err(rpc_err("Unable to grant the capability"))
        }
    }

    /// Records a Denied grant for the request's scope, stamped `now`.
    pub fn usergrants_deny(
        &mut self,
        _ctx: &CallContext,
        request: GrantRequest,
        now: u64,
    ) -> (r: Result<(), RpcCallError>)
        requires
            old(self).platform_state.wf(),
        ensures
            final(self).platform_state.wf(),
            final(self).platform_state == (PlatformState {
                cap_state: final(self).platform_state.cap_state,
                ..old(self).platform_state
            }),
            final(self).platform_state.cap_state.supported == old(
                self,
            ).platform_state.cap_state.supported,
            final(self).platform_state.cap_state.available == old(
                self,
            ).platform_state.cap_state.available,
            final(self).platform_state.cap_state.grant_state.grant_gated == old(
                self,
            ).platform_state.cap_state.grant_state.grant_gated,
            r is Ok ==> forall|other: Option<Seq<char>>|
                other != opt_str_view(
                    match request.options {
                        Some(o) => o.app_id,
                        None => None,
                    },
                ) ==> final(self).platform_state.cap_state.grant_state.spec_entries_for(other)
                    == old(self).platform_state.cap_state.grant_state.spec_entries_for(other),
            r is Ok <==> contains_str(
                old(self).platform_state.cap_state.grant_state.grant_gated@,
                request.capability@,
            ),
            r is Ok ==> modified_entries(
                old(self).platform_state.cap_state.grant_state.spec_entries_for(
                    opt_str_view(
                        match request.options {
                            Some(o) => o.app_id,
                            None => None,
                        },
                    ),
                ),
                GrantStateModify::Deny,
                request.capability@,
                request.role,
                final(self).platform_state.cap_state.grant_state.spec_entries_for(
                    opt_str_view(
                        match request.options {
                            Some(o) => o.app_id,
                            None => None,
                        },
                    ),
                ),
                now,
            ),
            r matches Err(e) ==> e.message@ == "Unable to deny the capability"@ && final(self).platform_state.cap_state.grant_state == old(self).platform_state.cap_state.grant_state,
    {
        if self.grant_modify_request(GrantStateModify::Deny, request, now) {
            Ok(())
        } else {
            Err(rpc_err("Unable to deny the capability"))
        }
    }

    /// Clears whatever is recorded for the request's scope and capability.
    pub fn usergrants_clear(
        &mut self,
        _ctx: &CallContext,
        request: GrantRequest,
        now: u64,
    ) -> (r: Result<(), RpcCallError>)
        requires
            old(self).platform_state.wf(),
        ensures
            final(self).platform_state.wf(),
            final(self).platform_state == (PlatformState {
                cap_state: final(self).platform_state.cap_state,
                ..old(self).platform_state
            }),
            final(self).platform_state.cap_state.supported == old(
                self,
            ).platform_state.cap_state.supported,
            final(self).platform_state.cap_state.available == old(
                self,
            ).platform_state.cap_state.available,
            final(self).platform_state.cap_state.grant_state.grant_gated == old(
                self,
            ).platform_state.cap_state.grant_state.grant_gated,
            r is Ok ==> forall|other: Option<Seq<char>>|
                other != opt_str_view(
                    match request.options {
                        Some(o) => o.app_id,
                        None => None,
                    },
                ) ==> final(self).platform_state.cap_state.grant_state.spec_entries_for(other)
                    == old(self).platform_state.cap_state.grant_state.spec_entries_for(other),
            r is Ok <==> contains_str(
                old(self).platform_state.cap_state.grant_state.grant_gated@,
                request.capability@,
            ),
            r is Ok ==> modified_entries(
                old(self).platform_state.cap_state.grant_state.spec_entries_for(
                    opt_str_view(
                        match request.options {
                            Some(o) => o.app_id,
                            None => None,
                        },
                    ),
                ),
                GrantStateModify::Clear,
                request.capability@,
                request.role,
                final(self).platform_state.cap_state.grant_state.spec_entries_for(
                    opt_str_view(
                        match request.options {
                            Some(o) => o.app_id,
                            None => None,
                        },
                    ),
                ),
                now,
            ),
            r matches Err(e) ==> e.message@ == "Unable to clear the capability"@ && final(self).platform_state.cap_state.grant_state == old(self).platform_state.cap_state.grant_state,
    {
        if self.grant_modify_request(GrantStateModify::Clear, request, now) {
            Ok(())
        } else {
            Err(rpc_err("Unable to clear the capability"))
        }
    }
}

/// The provider that registers the grant handlers with the RPC server;
/// the server wiring itself lives at the edge.
pub struct UserGrantsRPCProvider;

} // verus!
