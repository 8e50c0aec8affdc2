//! The user-grant store: per-app (or device-scoped) authorization records
//! with a lifespan, and the mutations the grant RPC handlers apply to them.

use vstd::prelude::*;
use crate::text::{contains_str, str_eq, vec_contains_str};

verus! {

/// In which role an app exercises a capability.
#[derive(Debug, Clone, Copy, PartialEq, Eq, Structural)]
pub enum CapabilityRole {
    Use,
    Manage,
    Provide,
}

/// The user's decision recorded for a capability.
#[derive(Debug, Clone, Copy, PartialEq, Eq, Structural)]
pub enum GrantStatus {
    Allowed,
    Denied,
}

/// How long a grant is meant to outlive the moment it was recorded.
#[derive(Debug, Clone, Copy, PartialEq, Eq, Structural)]
pub enum GrantLifespan {
    Once,
    Forever,
    AppActive,
    PowerActive,
    Seconds,
}

/// The three mutations a grant store accepts.
#[derive(Debug, Clone, Copy, PartialEq, Eq, Structural)]
pub enum GrantStateModify {
    Grant,
    Deny,
    Clear,
}

impl CapabilityRole {
    /// The wire name of the role.
    pub fn as_string(&self) -> (r: String)
        ensures
            r@ == spec_role_string(*self),
    {
        let mut m = String::new();
        match self {
            CapabilityRole::Use => m.append("use"),
            CapabilityRole::Manage => m.append("manage"),
            CapabilityRole::Provide => m.append("provide"),
        }
        m
    }
}

impl GrantStatus {
    /// The wire name of the status.
    pub fn as_string(&self) -> (r: String)
        ensures
            r@ == spec_status_string(*self),
    {
        let mut m = String::new();
        match self {
            GrantStatus::Allowed => m.append("granted"),
            GrantStatus::Denied => m.append("denied"),
        }
        m
    }
}

impl GrantLifespan {
    /// The wire name of the lifespan.
    pub fn as_string(&self) -> (r: String)
        ensures
            r@ == spec_lifespan_string(*self),
    {
        let mut m = String::new();
        match self {
            GrantLifespan::Once => m.append("once"),
            GrantLifespan::Forever => m.append("forever"),
            GrantLifespan::AppActive => m.append("appActive"),
            GrantLifespan::PowerActive => m.append("powerActive"),
            GrantLifespan::Seconds => m.append("seconds"),
        }
        m
    }
}

/// One recorded user decision: a capability, the role it covers, the
/// decision, and when it was recorded. `lifespan_ttl_in_secs` bounds its
/// validity relative to `last_modified_time` (seconds since the epoch).
#[derive(Debug)]
pub struct GrantEntry {
    pub role: CapabilityRole,
    pub capability: String,
    pub status: Option<GrantStatus>,
    pub lifespan: Option<GrantLifespan>,
    pub last_modified_time: u64,
    pub lifespan_ttl_in_secs: Option<u64>,
}

impl Clone for GrantEntry {
    fn clone(&self) -> (res: Self)
        ensures
            res == *self,
    {
        GrantEntry {
            role: self.role,
            capability: self.capability.clone(),
            status: self.status,
            lifespan: self.lifespan,
            last_modified_time: self.last_modified_time,
            lifespan_ttl_in_secs: self.lifespan_ttl_in_secs,
        }
    }
}

/// The wire name of a role, in spec form.
pub open spec fn spec_role_string(r: CapabilityRole) -> Seq<char> {
    match r {
        CapabilityRole::Use => "use"@,
        CapabilityRole::Manage => "manage"@,
        CapabilityRole::Provide => "provide"@,
    }
}

/// The wire name of a status, in spec form.
pub open spec fn spec_status_string(s: GrantStatus) -> Seq<char> {
    match s {
        GrantStatus::Allowed => "granted"@,
        GrantStatus::Denied => "denied"@,
    }
}

/// The wire name of a lifespan, in spec form.
pub open spec fn spec_lifespan_string(l: GrantLifespan) -> Seq<char> {
    match l {
        GrantLifespan::Once => "once"@,
        GrantLifespan::Forever => "forever"@,
        GrantLifespan::AppActive => "appActive"@,
        GrantLifespan::PowerActive => "powerActive"@,
        GrantLifespan::Seconds => "seconds"@,
    }
}

/// A recorded entry carries a decision and a lifespan, and an expiring
/// entry's expiry instant fits a signed 64-bit timestamp.
pub open spec fn entry_wf(e: GrantEntry) -> bool {
    &&& e.status is Some
    &&& e.lifespan is Some
    &&& (e.lifespan_ttl_in_secs matches Some(t) ==> e.last_modified_time + t <= i64::MAX)
}

/// A grant with a time-to-live is honored exactly while no more than the
/// ttl has elapsed since it was recorded; one without a ttl does not expire
/// by time.
pub open spec fn spec_grant_honored(e: GrantEntry, now: u64) -> bool {
    match e.lifespan_ttl_in_secs {
        None => true,
        Some(ttl) => now - e.last_modified_time <= ttl,
    }
}

impl GrantEntry {
    /// Whether the grant is still honored at `now`.
    pub fn is_honored(&self, now: u64) -> (r: bool)
        ensures
            r == spec_grant_honored(*self, now),
    {
        match self.lifespan_ttl_in_secs {
            None => true,
            Some(ttl) => {
                if now < self.last_modified_time {
                    true
                } else {
                    now - self.last_modified_time <= ttl
                }
            },
        }
    }

    /// Whether the grant's time-to-live has run out at `now`.
    pub fn has_expired(&self, now: u64) -> (r: bool)
        ensures
            r == !spec_grant_honored(*self, now),
    {
        !self.is_honored(now)
    }
}

/// The grants recorded for one scope: a named app, or the device when
/// `app_id` is `None`.
#[derive(Debug)]
pub struct AppGrants {
    pub app_id: Option<String>,
    pub entries: Vec<GrantEntry>,
}

/// The whole grant store: one group per scope, plus the set of capabilities
/// that are grant-gated at all (mutations on any other capability are
/// refused).
#[derive(Debug)]
pub struct GrantState {
    pub grants: Vec<AppGrants>,
    pub grant_gated: Vec<String>,
}

/// The scope key of a group, compared by text.
pub open spec fn opt_str_view(a: Option<String>) -> Option<Seq<char>> {
    match a {
        Some(s) => Some(s@),
        None => None,
    }
}

/// `s` without the entries recorded for `(cap, role)`.
pub open spec fn remove_cap_role(s: Seq<GrantEntry>, cap: Seq<char>, role: CapabilityRole) -> Seq<
    GrantEntry,
>
    decreases s.len(),
{
    if s.len() == 0 {
        Seq::<GrantEntry>::empty()
    } else {
        let rest = remove_cap_role(s.drop_last(), cap, role);
        if s.last().capability@ == cap && s.last().role == role {
            rest
        } else {
            rest.push(s.last())
        }
    }
}

/// The entries of `s` recorded for capability `cap` (any role).
pub open spec fn filter_cap(s: Seq<GrantEntry>, cap: Seq<char>) -> Seq<GrantEntry>
    decreases s.len(),
{
    if s.len() == 0 {
        Seq::<GrantEntry>::empty()
    } else {
        let rest = filter_cap(s.drop_last(), cap);
        if s.last().capability@ == cap {
            rest.push(s.last())
        } else {
            rest
        }
    }
}

/// Every entry surviving `filter_cap` is recorded for `cap`, and every
/// entry of the filter comes from `s`.
pub proof fn lemma_filter_cap_members(s: Seq<GrantEntry>, cap: Seq<char>)
    ensures
        forall|i: int|
            0 <= i < filter_cap(s, cap).len() ==> (#[trigger] filter_cap(s, cap)[i]).capability@
                == cap,
        forall|i: int|
            0 <= i < filter_cap(s, cap).len() ==> exists|j: int|
                0 <= j < s.len() && (#[trigger] filter_cap(s, cap)[i]) == s[j],
    decreases s.len(),
{
    if s.len() > 0 {
        lemma_filter_cap_members(s.drop_last(), cap);
        let f = filter_cap(s, cap);
        let fd = filter_cap(s.drop_last(), cap);
        assert forall|i: int| 0 <= i < f.len() implies (#[trigger] f[i]).capability@ == cap
            && exists|j: int| 0 <= j < s.len() && f[i] == s[j] by {
            if s.last().capability@ == cap && i == f.len() - 1 {
                assert(f[i] == s.last());
                assert(f[i] == s[s.len() - 1]);
            } else {
                assert(f[i] == fd[i]);
                let j = choose|j: int| 0 <= j < s.drop_last().len() && fd[i] == s.drop_last()[j];
                assert(s.drop_last()[j] == s[j]);
            }
        }
    }
}

/// The per-app groups of entries recorded for a capability: one group per
/// app-scoped record set holding at least one matching entry, in store
/// order, each with exactly its matching entries.
pub open spec fn spec_groups_for_cap(grants: Seq<AppGrants>, cap: Seq<char>) -> Seq<
    (Seq<char>, Seq<GrantEntry>),
>
    decreases grants.len(),
{
    if grants.len() == 0 {
        Seq::<(Seq<char>, Seq<GrantEntry>)>::empty()
    } else {
        let rest = spec_groups_for_cap(grants.drop_last(), cap);
        let g = grants.last();
        if g.app_id is Some && filter_cap(g.entries@, cap).len() > 0 {
            rest.push((g.app_id->0@, filter_cap(g.entries@, cap)))
        } else {
            rest
        }
    }
}

/// When every recorded entry is well formed, so is every entry of every
/// capability group.
pub proof fn lemma_groups_for_cap_wf(grants: Seq<AppGrants>, cap: Seq<char>)
    requires
        forall|i: int, k: int|
            0 <= i < grants.len() && 0 <= k < grants[i].entries@.len() ==> entry_wf(
                #[trigger] grants[i].entries@[k],
            ),
    ensures
        forall|j: int, k: int|
            0 <= j < spec_groups_for_cap(grants, cap).len() && 0 <= k < spec_groups_for_cap(
                grants,
                cap,
            )[j].1.len() ==> entry_wf(#[trigger] spec_groups_for_cap(grants, cap)[j].1[k]),
    decreases grants.len(),
{
    if grants.len() > 0 {
        assert(forall|i: int|
            0 <= i < grants.len() - 1 ==> (#[trigger] grants.drop_last()[i]) == grants[i]);
        lemma_groups_for_cap_wf(grants.drop_last(), cap);
        let sg = spec_groups_for_cap(grants, cap);
        let rest = spec_groups_for_cap(grants.drop_last(), cap);
        let g = grants.last();
        lemma_filter_cap_members(g.entries@, cap);
        assert forall|j: int, k: int|
            0 <= j < sg.len() && 0 <= k < sg[j].1.len() implies entry_wf(
            #[trigger] sg[j].1[k],
        ) by {
            if g.app_id is Some && filter_cap(g.entries@, cap).len() > 0 && j == sg.len() - 1 {
                assert(sg[j] == (g.app_id->0@, filter_cap(g.entries@, cap)));
                let m = choose|m: int|
                    0 <= m < g.entries@.len() && (#[trigger] filter_cap(g.entries@, cap)[k])
                        == g.entries@[m];
                assert(g == grants[grants.len() - 1]);
                assert(entry_wf(grants[grants.len() - 1].entries@[m]));
            } else {
                assert(sg[j] == rest[j]);
            }
        }
    }
}

/// Whether `s` holds an entry for `(cap, role)` carrying `status`.
pub open spec fn has_entry_with(
    s: Seq<GrantEntry>,
    cap: Seq<char>,
    role: CapabilityRole,
    status: GrantStatus,
) -> bool {
    exists|i: int|
        0 <= i < s.len() && s[i].capability@ == cap && s[i].role == role && s[i].status == Some(
            status,
        )
}

/// What a successful mutation does to the entries of the touched scope:
/// `Clear` removes the `(cap, role)` records; `Grant` and `Deny` replace
/// them by one fresh record carrying the decision, stamped `now`.
pub open spec fn modified_entries(
    pre: Seq<GrantEntry>,
    modify: GrantStateModify,
    cap: Seq<char>,
    role: CapabilityRole,
    post: Seq<GrantEntry>,
    now: u64,
) -> bool {
    match modify {
        GrantStateModify::Clear => post == remove_cap_role(pre, cap, role),
        GrantStateModify::Grant => post.len() == remove_cap_role(pre, cap, role).len() + 1
            && post.drop_last() == remove_cap_role(pre, cap, role) && post.last().capability@ == cap
            && post.last().role == role && post.last().status == Some(GrantStatus::Allowed)
            && post.last().lifespan == Some(GrantLifespan::Forever)
            && post.last().last_modified_time == now && post.last().lifespan_ttl_in_secs is None,
        GrantStateModify::Deny => post.len() == remove_cap_role(pre, cap, role).len() + 1
            && post.drop_last() == remove_cap_role(pre, cap, role) && post.last().capability@ == cap
            && post.last().role == role && post.last().status == Some(GrantStatus::Denied)
            && post.last().lifespan == Some(GrantLifespan::Forever)
            && post.last().last_modified_time == now && post.last().lifespan_ttl_in_secs is None,
    }
}

/// No entry surviving `remove_cap_role` is recorded for `(cap, role)`.
pub proof fn lemma_remove_cap_role_no_match(s: Seq<GrantEntry>, cap: Seq<char>, role: CapabilityRole)
    ensures
        forall|i: int|
            0 <= i < remove_cap_role(s, cap, role).len() ==> !((#[trigger] remove_cap_role(
                s,
                cap,
                role,
            )[i]).capability@ == cap && remove_cap_role(s, cap, role)[i].role == role),
    decreases s.len(),
{
    if s.len() > 0 {
        lemma_remove_cap_role_no_match(s.drop_last(), cap, role);
    }
}

/// Granting is visible: after a successful `grant(app, role, cap)`, the
/// entries returned for that scope hold `(cap, role, Allowed)`.
pub proof fn lemma_grant_round_trip(
    pre: Seq<GrantEntry>,
    post: Seq<GrantEntry>,
    cap: Seq<char>,
    role: CapabilityRole,
    now: u64,
)
    requires
        modified_entries(pre, GrantStateModify::Grant, cap, role, post, now),
    ensures
        has_entry_with(post, cap, role, GrantStatus::Allowed),
        !has_entry_with(post, cap, role, GrantStatus::Denied),
{
    assert(post[post.len() - 1] == post.last());
    lemma_remove_cap_role_no_match(pre, cap, role);
    assert forall|i: int|
        0 <= i < post.len() && post[i].capability@ == cap && post[i].role == role implies post[i].status
        == Some(GrantStatus::Allowed) by {
        if i < post.len() - 1 {
            assert(post[i] == post.drop_last()[i]);
        }
    }
}

/// Denying after granting is visible: after a successful
/// `deny(app, role, cap)`, the entries returned for that scope hold
/// `(cap, role, Denied)` and no Allowed record for the same key, whatever
/// stood there before.
pub proof fn lemma_deny_round_trip(
    pre: Seq<GrantEntry>,
    post: Seq<GrantEntry>,
    cap: Seq<char>,
    role: CapabilityRole,
    now: u64,
)
    requires
        modified_entries(pre, GrantStateModify::Deny, cap, role, post, now),
    ensures
        has_entry_with(post, cap, role, GrantStatus::Denied),
        !has_entry_with(post, cap, role, GrantStatus::Allowed),
{
    assert(post[post.len() - 1] == post.last());
    lemma_remove_cap_role_no_match(pre, cap, role);
    assert forall|i: int|
        0 <= i < post.len() && post[i].capability@ == cap && post[i].role == role implies post[i].status
        == Some(GrantStatus::Denied) by {
        if i < post.len() - 1 {
            assert(post[i] == post.drop_last()[i]);
        }
    }
}

/// Clearing is visible: after a successful `clear(app, role, cap)`, the
/// entries returned for that scope hold nothing for `(cap, role)`.
pub proof fn lemma_clear_round_trip(
    pre: Seq<GrantEntry>,
    post: Seq<GrantEntry>,
    cap: Seq<char>,
    role: CapabilityRole,
    now: u64,
)
    requires
        modified_entries(pre, GrantStateModify::Clear, cap, role, post, now),
    ensures
        forall|i: int|
            0 <= i < post.len() ==> !((#[trigger] post[i]).capability@ == cap && post[i].role
                == role),
{
    lemma_remove_cap_role_no_match(pre, cap, role);
}

impl GrantState {
    /// Scope keys are unique and every recorded entry carries a decision.
    pub open spec fn wf(self) -> bool {
        &&& forall|i: int, j: int|
            0 <= i < j < self.grants@.len() ==> opt_str_view(self.grants@[i].app_id) != opt_str_view(
                self.grants@[j].app_id,
            )
        &&& forall|i: int, k: int|
            0 <= i < self.grants@.len() && 0 <= k < self.grants@[i].entries@.len() ==> entry_wf(
                #[trigger] self.grants@[i].entries@[k],
            )
    }

    /// Whether some group is recorded under the scope key.
    pub open spec fn has_scope(self, key: Option<Seq<char>>) -> bool {
        exists|i: int|
            0 <= i < self.grants@.len() && opt_str_view(#[trigger] self.grants@[i].app_id) == key
    }

    /// The index of the group recorded under the scope key.
    pub open spec fn scope_idx(self, key: Option<Seq<char>>) -> int {
        choose|i: int|
            0 <= i < self.grants@.len() && opt_str_view(#[trigger] self.grants@[i].app_id) == key
    }

    /// The entries recorded under the scope key; empty when none are.
    pub open spec fn spec_entries_for(self, key: Option<Seq<char>>) -> Seq<GrantEntry> {
        if self.has_scope(key) {
            self.grants@[self.scope_idx(key)].entries@
        } else {
            Seq::<GrantEntry>::empty()
        }
    }

    /// The capabilities the store accepts mutations for.
    pub open spec fn spec_grant_gated(self) -> Seq<String> {
        self.grant_gated@
    }

    /// An empty store accepting mutations for the given capabilities.
    pub fn new(grant_gated: Vec<String>) -> (r: Self)
        ensures
            r.wf(),
            r.grants@.len() == 0,
            r.spec_grant_gated() == grant_gated@,
            forall|key: Option<Seq<char>>| r.spec_entries_for(key) == Seq::<GrantEntry>::empty(),
    {
        GrantState { grants: Vec::new(), grant_gated }
    }

    fn find_scope(&self, key: &Option<String>) -> (r: Option<usize>)
        requires
            self.wf(),
        ensures
            match r {
                Some(i) => i < self.grants@.len() && opt_str_view(self.grants@[i as int].app_id)
                    == opt_str_view(*key) && self.has_scope(opt_str_view(*key)) && self.scope_idx(
                    opt_str_view(*key),
                ) == i,
                None => !self.has_scope(opt_str_view(*key)),
            },
    {
        let n = self.grants.len();
        let mut i: usize = 0;
        while i < n
            invariant
                self.wf(),
                n == self.grants@.len(),
                i <= n,
                forall|k: int|
                    0 <= k < i ==> opt_str_view(#[trigger] self.grants@[k].app_id) != opt_str_view(
                        *key,
                    ),
            decreases n - i,
        {
            let same = match (&self.grants[i].app_id, key) {
                (None, None) => true,
                (Some(a), Some(b)) => str_eq(a.as_str(), b.as_str()),
                _ => false,
            };
            if same {
                proof {
                    let ii = i as int;
                    assert(opt_str_view(self.grants@[ii].app_id) == opt_str_view(*key));
                    let j = self.scope_idx(opt_str_view(*key));
                    if j != ii {
                        assert(opt_str_view(self.grants@[j].app_id) != opt_str_view(
                            self.grants@[ii].app_id,
                        ));
                    }
                }
                return Some(i);
            }
            i = i + 1;
        }
        None
    }

    /// The entries recorded for the app, as shown to the grant RPCs.
    pub fn get_grant_entries_for_app_id(&self, app_id: String) -> (r: Vec<GrantEntry>)
        requires
            self.wf(),
        ensures
            r@ == self.spec_entries_for(Some(app_id@)),
    {
        let key = Some(app_id);
        match self.find_scope(&key) {
            Some(i) => clone_entries(&self.grants[i].entries),
            None => Vec::new(),
        }
    }

    /// The device-scoped entries.
    pub fn get_device_entries(&self) -> (r: Vec<GrantEntry>)
        requires
            self.wf(),
        ensures
            r@ == self.spec_entries_for(None),
    {
        let key = None;
        match self.find_scope(&key) {
            Some(i) => clone_entries(&self.grants[i].entries),
            None => Vec::new(),
        }
    }

    /// Every app's entries recorded for the capability: one `(app, entries)`
    /// group per app-scoped record set holding at least one matching entry,
    /// in store order, each with exactly its matching entries.
    /// Device-scoped records are not included.
    pub fn get_grant_entries_for_capability(&self, capability: &str) -> (r: Vec<
        (String, Vec<GrantEntry>),
    >)
        requires
            self.wf(),
        ensures
            r@.len() == spec_groups_for_cap(self.grants@, capability@).len(),
            forall|j: int|
                0 <= j < r@.len() ==> (#[trigger] r@[j]).0@ == spec_groups_for_cap(
                    self.grants@,
                    capability@,
                )[j].0 && r@[j].1@ == spec_groups_for_cap(self.grants@, capability@)[j].1,
    {
        let n = self.grants.len();
        let mut r: Vec<(String, Vec<GrantEntry>)> = Vec::new();
        let mut i: usize = 0;
        while i < n
            invariant
                self.wf(),
                n == self.grants@.len(),
                i <= n,
                r@.len() == spec_groups_for_cap(self.grants@.take(i as int), capability@).len(),
                forall|j: int|
                    0 <= j < r@.len() ==> (#[trigger] r@[j]).0@ == spec_groups_for_cap(
                        self.grants@.take(i as int),
                        capability@,
                    )[j].0 && r@[j].1@ == spec_groups_for_cap(
                        self.grants@.take(i as int),
                        capability@,
                    )[j].1,
            decreases n - i,
        {
            proof {
                assert(self.grants@.take(i + 1 as int).drop_last() =~= self.grants@.take(i as int));
                assert(self.grants@.take(i + 1 as int).last() == self.grants@[i as int]);
            }
            if let Some(app) = &self.grants[i].app_id {
                let matched = filter_entries_by_cap(&self.grants[i].entries, capability);
                if matched.len() > 0 {
                    let pair = (app.clone(), matched);
                    r.push(pair);
                }
            }
            i = i + 1;
        }
        proof {
            assert(self.grants@.take(n as int) =~= self.grants@);
        }
        r
    }
}

/// Entries surviving `remove_cap_role` all come from `s`, so a property of
/// every entry of `s` carries over.
proof fn lemma_remove_cap_role_status(s: Seq<GrantEntry>, cap: Seq<char>, role: CapabilityRole)
    requires
        forall|k: int| 0 <= k < s.len() ==> entry_wf(#[trigger] s[k]),
    ensures
        forall|k: int|
            0 <= k < remove_cap_role(s, cap, role).len() ==> entry_wf(
                #[trigger] remove_cap_role(s, cap, role)[k],
            ),
    decreases s.len(),
{
    if s.len() > 0 {
        assert(forall|k: int| 0 <= k < s.len() - 1 ==> (#[trigger] s.drop_last()[k]) == s[k]);
        lemma_remove_cap_role_status(s.drop_last(), cap, role);
        let r = remove_cap_role(s, cap, role);
        let rd = remove_cap_role(s.drop_last(), cap, role);
        assert forall|k: int| 0 <= k < r.len() implies entry_wf(#[trigger] r[k]) by {
            if s.last().capability@ == cap && s.last().role == role {
                assert(r[k] == rd[k]);
            } else {
                if k < r.len() - 1 {
                    assert(r[k] == rd[k]);
                } else {
                    assert(r[k] == s.last());
                    assert(entry_wf(s[s.len() - 1]));
                }
            }
        }
    }
}

impl GrantState {
    /// Replaces whatever was recorded for `(entry.capability, entry.role)`
    /// in the scope by this one entry.
    pub fn update_entry(&mut self, app_id: Option<String>, entry: GrantEntry)
        requires
            old(self).wf(),
            entry_wf(entry),
        ensures
            final(self).wf(),
            final(self).spec_entries_for(opt_str_view(app_id)) == remove_cap_role(
                old(self).spec_entries_for(opt_str_view(app_id)),
                entry.capability@,
                entry.role,
            ).push(entry),
            forall|other: Option<Seq<char>>|
                other != opt_str_view(app_id) ==> final(self).spec_entries_for(other) == old(
                    self,
                ).spec_entries_for(other),
            final(self).grant_gated == old(self).grant_gated,
    {
        let ghost key = opt_str_view(app_id);
        proof {
            lemma_remove_cap_role_status(
                old(self).spec_entries_for(key),
                entry.capability@,
                entry.role,
            );
        }
        match self.find_scope(&app_id) {
            Some(i) => {
                let mut kept = remove_entries(
                    &self.grants[i].entries,
                    entry.capability.as_str(),
                    entry.role,
                );
                kept.push(entry);
                let group = AppGrants { app_id, entries: kept };
                self.grants[i] = group;
                proof {
                    self.lemma_scope_agreement(*old(self), i as int, key);
                }
            },
            None => {
                let mut entries: Vec<GrantEntry> = Vec::new();
                entries.push(entry);
                let group = AppGrants { app_id, entries };
                self.grants.push(group);
                proof {
                    let n = old(self).grants@.len() as int;
                    assert(self.grants@[n].entries@ =~= seq![entry]);
                    assert(remove_cap_role(Seq::<GrantEntry>::empty(), entry.capability@, entry.role)
                        .push(entry) =~= seq![entry]);
                    self.lemma_scope_agreement(*old(self), n, key);
                }
            },
        }
    }

    /// Removes every record for `(cap, role)` from the scope.
    pub fn remove_entry(&mut self, app_id: Option<String>, role: CapabilityRole, cap: &str)
        requires
            old(self).wf(),
        ensures
            final(self).wf(),
            final(self).spec_entries_for(opt_str_view(app_id)) == remove_cap_role(
                old(self).spec_entries_for(opt_str_view(app_id)),
                cap@,
                role,
            ),
            forall|other: Option<Seq<char>>|
                other != opt_str_view(app_id) ==> final(self).spec_entries_for(other) == old(
                    self,
                ).spec_entries_for(other),
            final(self).grant_gated == old(self).grant_gated,
    {
        let ghost key = opt_str_view(app_id);
        proof {
            lemma_remove_cap_role_status(old(self).spec_entries_for(key), cap@, role);
        }
        match self.find_scope(&app_id) {
            Some(i) => {
                let kept = remove_entries(&self.grants[i].entries, cap, role);
                let group = AppGrants { app_id, entries: kept };
                self.grants[i] = group;
                proof {
                    self.lemma_scope_agreement(*old(self), i as int, key);
                }
            },
            None => {},
        }
    }

    /// After replacing the group at `i` (whose key is unchanged), the store
    /// is still well formed, `i` is still the index of that key, and every
    /// other key resolves to the same entries as before.
    proof fn lemma_scope_agreement(&self, pre: GrantState, i: int, key: Option<Seq<char>>)
        requires
            pre.wf(),
            0 <= i <= pre.grants@.len(),
            self.grants@.len() == if i < pre.grants@.len() {
                pre.grants@.len() as int
            } else {
                pre.grants@.len() + 1 as int
            },
            forall|j: int| 0 <= j < pre.grants@.len() && j != i ==> self.grants@[j] == pre.grants@[j],
            opt_str_view(self.grants@[i].app_id) == key,
            i < pre.grants@.len() ==> opt_str_view(pre.grants@[i].app_id) == key,
            i == pre.grants@.len() ==> !pre.has_scope(key),
            forall|k: int|
                0 <= k < self.grants@[i].entries@.len() ==> entry_wf(
                    #[trigger] self.grants@[i].entries@[k],
                ),
        ensures
            self.wf(),
            self.has_scope(key),
            self.scope_idx(key) == i,
            self.spec_entries_for(key) == self.grants@[i].entries@,
            forall|other: Option<Seq<char>>|
                other != key ==> self.spec_entries_for(other) == pre.spec_entries_for(other),
    {
        assert forall|a: int, b: int| 0 <= a < b < self.grants@.len() implies opt_str_view(
            self.grants@[a].app_id,
        ) != opt_str_view(self.grants@[b].app_id) by {
            if b < pre.grants@.len() || i == b {
                if a != i && b != i {
                    assert(self.grants@[a] == pre.grants@[a]);
                    assert(self.grants@[b] == pre.grants@[b]);
                } else if a == i && i < pre.grants@.len() {
                    assert(self.grants@[b] == pre.grants@[b]);
                } else if b == i && i < pre.grants@.len() {
                    assert(self.grants@[a] == pre.grants@[a]);
                } else if b == i {
                    assert(self.grants@[a] == pre.grants@[a]);
                    assert(!pre.has_scope(key));
                    assert(opt_str_view(pre.grants@[a].app_id) != key);
                }
            }
        }
        assert(self.wf());
        assert(self.has_scope(key));
        let j = self.scope_idx(key);
        if j != i {
            assert(opt_str_view(self.grants@[j].app_id) != opt_str_view(self.grants@[i].app_id));
        }
        assert forall|other: Option<Seq<char>>| other != key implies self.spec_entries_for(other)
            == pre.spec_entries_for(other) by {
            if self.has_scope(other) {
                let j2 = self.scope_idx(other);
                assert(j2 != i);
                assert(self.grants@[j2] == pre.grants@[j2]);
                assert(pre.has_scope(other));
                let j3 = pre.scope_idx(other);
                if j3 != j2 {
                    assert(opt_str_view(pre.grants@[j3].app_id) != opt_str_view(
                        pre.grants@[j2].app_id,
                    ));
                }
            } else if pre.has_scope(other) {
                let j3 = pre.scope_idx(other);
                assert(j3 != i);
                assert(self.grants@[j3] == pre.grants@[j3]);
                assert(self.has_scope(other));
            }
        }
    }

    /// Applies one mutation for the scope. The mutation is accepted exactly
    /// when the capability is grant-gated; a refused mutation leaves the
    /// store untouched, an accepted one rewrites the scope's records for
    /// `(capability, role)` as `modified_entries` states and touches no
    /// other scope.
    pub fn grant_modify(
        &mut self,
        modify: GrantStateModify,
        app_id: Option<String>,
        role: CapabilityRole,
        capability: String,
        now: u64,
    ) -> (r: bool)
        requires
            old(self).wf(),
        ensures
            final(self).wf(),
            r == contains_str(old(self).grant_gated@, capability@),
            final(self).grant_gated == old(self).grant_gated,
            !r ==> *final(self) == *old(self),
            r ==> modified_entries(
                old(self).spec_entries_for(opt_str_view(app_id)),
                modify,
                capability@,
                role,
                final(self).spec_entries_for(opt_str_view(app_id)),
                now,
            ),
            r ==> forall|other: Option<Seq<char>>|
                other != opt_str_view(app_id) ==> final(self).spec_entries_for(other) == old(
                    self,
                ).spec_entries_for(other),
    {
        if !vec_contains_str(&self.grant_gated, capability.as_str()) {
            return false;
        }
        match modify {
            GrantStateModify::Grant => {
                let entry = GrantEntry {
                    role,
                    capability,
                    status: Some(GrantStatus::Allowed),
                    lifespan: Some(GrantLifespan::Forever),
                    last_modified_time: now,
                    lifespan_ttl_in_secs: None,
                };
                self.update_entry(app_id, entry);
            },
            GrantStateModify::Deny => {
                let entry = GrantEntry {
                    role,
                    capability,
                    status: Some(GrantStatus::Denied),
                    lifespan: Some(GrantLifespan::Forever),
                    last_modified_time: now,
                    lifespan_ttl_in_secs: None,
                };
                self.update_entry(app_id, entry);
            },
            GrantStateModify::Clear => {
                self.remove_entry(app_id, role, capability.as_str());
            },
        }
        proof {
            let pre_e = old(self).spec_entries_for(opt_str_view(app_id));
            let post_e = self.spec_entries_for(opt_str_view(app_id));
            if modify != GrantStateModify::Clear {
                assert(post_e.drop_last() =~= remove_cap_role(pre_e, capability@, role));
            }
        }
        true
    }
}

/// Copies a list of entries keeping everything but the `(cap, role)`
/// records.
fn remove_entries(entries: &Vec<GrantEntry>, cap: &str, role: CapabilityRole) -> (r: Vec<
    GrantEntry,
>)
    ensures
        r@ == remove_cap_role(entries@, cap@, role),
{
    let n = entries.len();
    let mut r: Vec<GrantEntry> = Vec::new();
    let mut i: usize = 0;
    while i < n
        invariant
            n == entries@.len(),
            i <= n,
            r@ == remove_cap_role(entries@.take(i as int), cap@, role),
        decreases n - i,
    {
        let matches_key = str_eq(entries[i].capability.as_str(), cap) && entries[i].role == role;
        if !matches_key {
            r.push(entries[i].clone());
        }
        proof {
            assert(entries@.take(i + 1 as int).drop_last() =~= entries@.take(i as int));
            assert(entries@.take(i + 1 as int).last() == entries@[i as int]);
        }
        i = i + 1;
    }
    proof {
        assert(entries@.take(n as int) =~= entries@);
    }
    r
}

/// Copies a list of entries record for record.
fn clone_entries(entries: &Vec<GrantEntry>) -> (r: Vec<GrantEntry>)
    ensures
        r@ == entries@,
{
    let n = entries.len();
    let mut r: Vec<GrantEntry> = Vec::new();
    let mut i: usize = 0;
    while i < n
        invariant
            n == entries@.len(),
            i <= n,
            r@ == entries@.take(i as int),
        decreases n - i,
    {
        r.push(entries[i].clone());
        proof {
            assert(entries@.take(i + 1 as int) =~= entries@.take(i as int).push(
                entries@[i as int],
            ));
        }
        i = i + 1;
    }
    proof {
        assert(entries@.take(n as int) =~= entries@);
    }
    r
}

/// Copies the entries recorded for the capability.
fn filter_entries_by_cap(entries: &Vec<GrantEntry>, capability: &str) -> (r: Vec<GrantEntry>)
    ensures
        r@ == filter_cap(entries@, capability@),
{
    let n = entries.len();
    let mut r: Vec<GrantEntry> = Vec::new();
    let mut i: usize = 0;
    while i < n
        invariant
            n == entries@.len(),
            i <= n,
            r@ == filter_cap(entries@.take(i as int), capability@),
        decreases n - i,
    {
        if str_eq(entries[i].capability.as_str(), capability) {
            r.push(entries[i].clone());
        }
        proof {
            assert(entries@.take(i + 1 as int).drop_last() =~= entries@.take(i as int));
            assert(entries@.take(i + 1 as int).last() == entries@[i as int]);
        }
        i = i + 1;
    }
    proof {
        assert(entries@.take(n as int) =~= entries@);
    }
    r
}

} // verus!
