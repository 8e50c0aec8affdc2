//! Application manifests: the capabilities an app declares and the browser
//! properties it launches with.

use vstd::prelude::*;
use crate::text::{contains_str, vec_contains_str};

verus! {

pub const X_DEFAULT: u32 = 0;

pub const Y_DEFAULT: u32 = 0;

pub const W_DEFAULT: u32 = 1920;

pub const H_DEFAULT: u32 = 1080;

/// A set of capability names split into the ones an app must have and the
/// ones it can use when present.
#[derive(Debug, Clone)]
pub struct Capability {
    pub required: Vec<String>,
    pub optional: Vec<String>,
}

#[derive(Debug, Clone)]
pub struct AppCapabilities {
    pub used: Capability,
    pub managed: Capability,
    pub provided: Capability,
}

/// Browser-facing launch properties of an app.
#[derive(Debug, Clone)]
pub struct AppProperties {
    pub user_agent: Option<String>,
    pub http_cookie_accept_policy: Option<String>,
    pub local_storage_enabled: Option<bool>,
    pub languages: Option<String>,
    pub headers: Option<String>,
}

/// The same properties in the order the browser consumes them.
#[derive(Debug, Clone)]
pub struct BrowserProps {
    pub headers: Option<String>,
    pub http_cookie_accept_policy: Option<String>,
    pub languages: Option<String>,
    pub local_storage_enabled: Option<bool>,
    pub user_agent: Option<String>,
}

impl AppProperties {
    /// Repackages the app properties field for field.
    pub fn get_browser_props(self) -> (r: BrowserProps)
        ensures
            r.headers == self.headers,
            r.http_cookie_accept_policy == self.http_cookie_accept_policy,
            r.languages == self.languages,
            r.local_storage_enabled == self.local_storage_enabled,
            r.user_agent == self.user_agent,
    {
        BrowserProps {
            headers: self.headers,
            http_cookie_accept_policy: self.http_cookie_accept_policy,
            languages: self.languages,
            local_storage_enabled: self.local_storage_enabled,
            user_agent: self.user_agent,
        }
    }
}

#[derive(Debug, Clone)]
pub struct AppManifest {
    pub app_key: String,
    pub name: String,
    pub start_page: String,
    pub content_catalog: Option<String>,
    pub runtime: String,
    pub x: u32,
    pub y: u32,
    pub w: u32,
    pub h: u32,
    pub capabilities: AppCapabilities,
    pub properties: Option<AppProperties>,
}

impl AppManifest {
    /// Whether the app lists the capability among the ones it requires.
    pub fn requires_capability(&self, cap: &str) -> (r: bool)
        ensures
            r == contains_str(self.capabilities.used.required@, cap@),
    {
        vec_contains_str(&self.capabilities.used.required, cap)
    }

    /// Whether the app is permitted to use the capability: it appears in the
    /// required or the optional list of its manifest.
    pub fn is_permitted(&self, cap: &str) -> (r: bool)
        ensures
            r == (contains_str(self.capabilities.used.required@, cap@) || contains_str(
                self.capabilities.used.optional@,
                cap@,
            )),
    {
        vec_contains_str(&self.capabilities.used.required, cap) || vec_contains_str(
            &self.capabilities.used.optional,
            cap,
        )
    }
}

/// One installed app: its id and its manifest.
#[derive(Debug)]
pub struct AppRecord {
    pub app_id: String,
    pub manifest: AppManifest,
}

/// The installed apps, keyed by app id; ids are unique.
#[derive(Debug)]
pub struct AppRegistry {
    pub apps: Vec<AppRecord>,
}

impl AppRegistry {
    /// App ids are unique.
    pub open spec fn wf(self) -> bool {
        forall|i: int, j: int|
            0 <= i < j < self.apps@.len() ==> (#[trigger] self.apps@[i]).app_id@ != (
            #[trigger] self.apps@[j]).app_id@
    }

    /// Whether an app is installed under the id.
    pub open spec fn spec_has_app(self, app_id: Seq<char>) -> bool {
        exists|i: int| 0 <= i < self.apps@.len() && (#[trigger] self.apps@[i]).app_id@ == app_id
    }

    /// The index of the app installed under the id.
    pub open spec fn app_idx(self, app_id: Seq<char>) -> int {
        choose|i: int| 0 <= i < self.apps@.len() && (#[trigger] self.apps@[i]).app_id@ == app_id
    }

    /// The manifest of the app installed under the id.
    pub open spec fn spec_manifest_for(self, app_id: Seq<char>) -> AppManifest {
        self.apps@[self.app_idx(app_id)].manifest
    }

    /// An empty registry.
    pub fn new() -> (r: Self)
        ensures
            r.wf(),
            r.apps@.len() == 0,
    {
        AppRegistry { apps: Vec::new() }
    }

    /// Whether an app is installed under the id.
    pub fn has_app(&self, app_id: &str) -> (r: bool)
        requires
            self.wf(),
        ensures
            r == self.spec_has_app(app_id@),
    {
        self.get_manifest(app_id).is_some()
    }

    /// The manifest installed under the id.
    pub fn get_manifest(&self, app_id: &str) -> (r: Option<&AppManifest>)
        requires
            self.wf(),
        ensures
            match r {
                Some(m) => self.spec_has_app(app_id@) && *m == self.spec_manifest_for(app_id@),
                None => !self.spec_has_app(app_id@),
            },
    {
        let n = self.apps.len();
        let mut i: usize = 0;
        while i < n
            invariant
                self.wf(),
                n == self.apps@.len(),
                i <= n,
                forall|k: int| 0 <= k < i ==> (#[trigger] self.apps@[k]).app_id@ != app_id@,
            decreases n - i,
        {
            if crate::text::str_eq(self.apps[i].app_id.as_str(), app_id) {
                proof {
                    let ii = i as int;
                    let j = self.app_idx(app_id@);
                    if j != ii {
                        assert(self.apps@[j].app_id@ != self.apps@[ii].app_id@);
                    }
                }
                return Some(&self.apps[i].manifest);
            }
            i = i + 1;
        }
        None
    }

    /// Installs an app not yet registered.
    pub fn add_app(&mut self, app_id: String, manifest: AppManifest)
        requires
            old(self).wf(),
            !old(self).spec_has_app(app_id@),
        ensures
            final(self).wf(),
            final(self).apps@ == old(self).apps@.push(
                AppRecord { app_id: app_id, manifest: manifest },
            ),
            final(self).spec_has_app(app_id@),
            final(self).spec_manifest_for(app_id@) == manifest,
            forall|other: Seq<char>|
                other != app_id@ ==> final(self).spec_has_app(other) == old(self).spec_has_app(
                    other,
                ),
            forall|other: Seq<char>|
                other != app_id@ && old(self).spec_has_app(other) ==> final(self).spec_manifest_for(
                    other,
                ) == old(self).spec_manifest_for(other),
    {
        let ghost key = app_id@;
        let record = AppRecord { app_id, manifest };
        self.apps.push(record);
        proof {
            let n = old(self).apps@.len() as int;
            assert forall|a: int, b: int| 0 <= a < b < self.apps@.len() implies (
            #[trigger] self.apps@[a]).app_id@ != (#[trigger] self.apps@[b]).app_id@ by {
                if b == n {
                    assert(self.apps@[a] == old(self).apps@[a]);
                    assert(old(self).apps@[a].app_id@ != key);
                }
            }
            let j = self.app_idx(key);
            if j != n {
                assert(self.apps@[j].app_id@ != self.apps@[n].app_id@);
            }
            assert forall|other: Seq<char>| other != key implies self.spec_has_app(other) == old(
                self,
            ).spec_has_app(other) by {
                if self.spec_has_app(other) {
                    let a = self.app_idx(other);
                    assert(a != n);
                    assert(self.apps@[a] == old(self).apps@[a]);
                }
                if old(self).spec_has_app(other) {
                    let a = old(self).app_idx(other);
                    assert(self.apps@[a] == old(self).apps@[a]);
                }
            }
            assert forall|other: Seq<char>| other != key && old(self).spec_has_app(other) implies
                self.spec_manifest_for(other) == old(self).spec_manifest_for(other) by {
                let a = self.app_idx(other);
                let b = old(self).app_idx(other);
                assert(a != n);
                assert(self.apps@[a] == old(self).apps@[a]);
                if a != b {
                    assert(old(self).apps@[a].app_id@ != old(self).apps@[b].app_id@);
                }
            }
        }
    }
}

pub fn x_default() -> (r: u32)
    ensures
        r == X_DEFAULT,
{
    X_DEFAULT
}

pub fn y_default() -> (r: u32)
    ensures
        r == Y_DEFAULT,
{
    Y_DEFAULT
}

pub fn w_default() -> (r: u32)
    ensures
        r == W_DEFAULT,
{
    W_DEFAULT
}

pub fn h_default() -> (r: u32)
    ensures
        r == H_DEFAULT,
{
    H_DEFAULT
}

impl Default for Capability {
    /// Both lists empty.
    fn default() -> (r: Self)
        ensures
            r.required@.len() == 0,
            r.optional@.len() == 0,
    {
        Capability { required: Vec::new(), optional: Vec::new() }
    }
}

impl Default for AppCapabilities {
    /// Every list empty.
    fn default() -> (r: Self)
        ensures
            r.used.required@.len() == 0,
            r.used.optional@.len() == 0,
            r.managed.required@.len() == 0,
            r.managed.optional@.len() == 0,
            r.provided.required@.len() == 0,
            r.provided.optional@.len() == 0,
    {
        AppCapabilities {
            used: Capability::default(),
            managed: Capability::default(),
            provided: Capability::default(),
        }
    }
}

} // verus!
