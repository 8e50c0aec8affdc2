//! The session registry: which sessions are live, over which transport each
//! one talks, and the connection id its cleanup is keyed by.

use vstd::prelude::*;
use crate::rpc::CallContext;
use crate::text::str_eq;

verus! {

/// How replies reach the app: written straight to its WebSocket, or handed
/// to a named bridge.
#[derive(Debug)]
pub enum EffectiveTransport {
    Websocket,
    Bridge(String),
}

impl Clone for EffectiveTransport {
    fn clone(&self) -> (res: Self)
        ensures
            res == *self,
    {
        match self {
            EffectiveTransport::Websocket => EffectiveTransport::Websocket,
            EffectiveTransport::Bridge(id) => EffectiveTransport::Bridge(id.clone()),
        }
    }
}

/// A bound connection from an app: its transport and the connection id
/// (`cid`) that unregistration is keyed by.
#[derive(Debug)]
pub struct Session {
    pub transport: EffectiveTransport,
    pub cid: String,
}

impl Clone for Session {
    fn clone(&self) -> (res: Self)
        ensures
            res == *self,
    {
        Session { transport: self.transport.clone(), cid: self.cid.clone() }
    }
}

/// One registered session under its session id.
#[derive(Debug)]
pub struct SessionRecord {
    pub session_id: String,
    pub session: Session,
}

/// The process-wide registry of live sessions, keyed by session id; ids are
/// unique.
#[derive(Debug)]
pub struct SessionState {
    pub sessions: Vec<SessionRecord>,
}

impl SessionState {
    /// Session ids are unique.
    pub open spec fn wf(self) -> bool {
        forall|i: int, j: int|
            0 <= i < j < self.sessions@.len() ==> (#[trigger] self.sessions@[i]).session_id@ != (
            #[trigger] self.sessions@[j]).session_id@
    }

    /// Whether a session is registered under the id.
    pub open spec fn spec_has_session(self, sid: Seq<char>) -> bool {
        exists|i: int|
            0 <= i < self.sessions@.len() && (#[trigger] self.sessions@[i]).session_id@ == sid
    }

    /// The index of the session registered under the id.
    pub open spec fn session_idx(self, sid: Seq<char>) -> int {
        choose|i: int|
            0 <= i < self.sessions@.len() && (#[trigger] self.sessions@[i]).session_id@ == sid
    }

    /// The session registered under the id.
    pub open spec fn spec_session_for(self, sid: Seq<char>) -> Session {
        self.sessions@[self.session_idx(sid)].session
    }

    /// An empty registry.
    pub fn new() -> (r: Self)
        ensures
            r.wf(),
            r.sessions@.len() == 0,
    {
        SessionState { sessions: Vec::new() }
    }

    fn find(&self, sid: &str) -> (r: Option<usize>)
        requires
            self.wf(),
        ensures
            match r {
                Some(i) => i < self.sessions@.len() && self.sessions@[i as int].session_id@ == sid@
                    && self.spec_has_session(sid@) && self.session_idx(sid@) == i,
                None => !self.spec_has_session(sid@),
            },
    {
        let n = self.sessions.len();
        let mut i: usize = 0;
        while i < n
            invariant
                self.wf(),
                n == self.sessions@.len(),
                i <= n,
                forall|k: int| 0 <= k < i ==> (#[trigger] self.sessions@[k]).session_id@ != sid@,
            decreases n - i,
        {
            if str_eq(self.sessions[i].session_id.as_str(), sid) {
                proof {
                    let ii = i as int;
                    let j = self.session_idx(sid@);
                    if j != ii {
                        assert(self.sessions@[j].session_id@ != self.sessions@[ii].session_id@);
                    }
                }
                return Some(i);
            }
            i = i + 1;
        }
        None
    }

    /// Whether the context's session is live.
    pub fn has_session(&self, ctx: &CallContext) -> (r: bool)
        requires
            self.wf(),
        ensures
            r == self.spec_has_session(ctx.session_id@),
    {
        self.find(ctx.session_id.as_str()).is_some()
    }

    /// The context's session, when live.
    pub fn get_session(&self, ctx: &CallContext) -> (r: Option<Session>)
        requires
            self.wf(),
        ensures
            match r {
                Some(s) => self.spec_has_session(ctx.session_id@) && s == self.spec_session_for(
                    ctx.session_id@,
                ),
                None => !self.spec_has_session(ctx.session_id@),
            },
    {
        match self.find(ctx.session_id.as_str()) {
            Some(i) => Some(self.sessions[i].session.clone()),
            None => None,
        }
    }

    /// Registers the session under the id, replacing any session already
    /// registered under it; no other id is touched.
    pub fn add_session(&mut self, session_id: String, session: Session)
        requires
            old(self).wf(),
        ensures
            final(self).wf(),
            final(self).spec_has_session(session_id@),
            final(self).spec_session_for(session_id@) == session,
            forall|sid: Seq<char>|
                sid != session_id@ ==> final(self).spec_has_session(sid) == old(
                    self,
                ).spec_has_session(sid),
            forall|sid: Seq<char>|
                sid != session_id@ && old(self).spec_has_session(sid) ==> final(self).spec_session_for(sid) == old(self).spec_session_for(sid),
    {
        let found = self.find(session_id.as_str());
        match found {
            Some(i) => {
                let record = SessionRecord { session_id, session };
                self.sessions[i] = record;
                proof {
                    self.lemma_one_changed(*old(self), i as int);
                }
            },
            None => {
                let record = SessionRecord { session_id, session };
                self.sessions.push(record);
                proof {
                    self.lemma_one_changed(*old(self), old(self).sessions@.len() as int);
                }
            },
        }
    }

    /// After replacing or appending the record at `i`, lookups of its id
    /// resolve to it and lookups of every other id are as before.
    proof fn lemma_one_changed(&self, pre: SessionState, i: int)
        requires
            pre.wf(),
            0 <= i <= pre.sessions@.len(),
            self.sessions@.len() == if i < pre.sessions@.len() {
                pre.sessions@.len() as int
            } else {
                pre.sessions@.len() + 1 as int
            },
            forall|j: int|
                0 <= j < pre.sessions@.len() && j != i ==> self.sessions@[j] == pre.sessions@[j],
            i < pre.sessions@.len() ==> self.sessions@[i].session_id@
                == pre.sessions@[i].session_id@,
            i == pre.sessions@.len() ==> !pre.spec_has_session(self.sessions@[i].session_id@),
        ensures
            self.wf(),
            self.spec_has_session(self.sessions@[i].session_id@),
            self.session_idx(self.sessions@[i].session_id@) == i,
            self.spec_session_for(self.sessions@[i].session_id@) == self.sessions@[i].session,
            forall|sid: Seq<char>|
                sid != self.sessions@[i].session_id@ ==> self.spec_has_session(sid)
                    == pre.spec_has_session(sid),
            forall|sid: Seq<char>|
                sid != self.sessions@[i].session_id@ && pre.spec_has_session(sid)
                    ==> self.spec_session_for(sid) == pre.spec_session_for(sid),
    {
        let key = self.sessions@[i].session_id@;
        assert forall|a: int, b: int| 0 <= a < b < self.sessions@.len() implies (
        #[trigger] self.sessions@[a]).session_id@ != (#[trigger] self.sessions@[b]).session_id@ by {
            if a != i && b != i {
                assert(self.sessions@[a] == pre.sessions@[a]);
                assert(self.sessions@[b] == pre.sessions@[b]);
            } else if a == i && i < pre.sessions@.len() {
                assert(self.sessions@[b] == pre.sessions@[b]);
            } else if b == i && i < pre.sessions@.len() {
                assert(self.sessions@[a] == pre.sessions@[a]);
            } else if b == i {
                assert(self.sessions@[a] == pre.sessions@[a]);
                assert(pre.sessions@[a].session_id@ != key);
            }
        }
        let j = self.session_idx(key);
        if j != i {
            assert(self.sessions@[j].session_id@ != self.sessions@[i].session_id@);
        }
        assert forall|sid: Seq<char>| sid != key implies self.spec_has_session(sid)
            == pre.spec_has_session(sid) by {
            if self.spec_has_session(sid) {
                let a = self.session_idx(sid);
                assert(a != i);
                assert(self.sessions@[a] == pre.sessions@[a]);
            }
            if pre.spec_has_session(sid) {
                let a = pre.session_idx(sid);
                assert(a != i);
                assert(self.sessions@[a] == pre.sessions@[a]);
            }
        }
        assert forall|sid: Seq<char>| sid != key && pre.spec_has_session(sid) implies
            self.spec_session_for(sid) == pre.spec_session_for(sid) by {
            let a = self.session_idx(sid);
            let b = pre.session_idx(sid);
            assert(a != i);
            assert(self.sessions@[a] == pre.sessions@[a]);
            if a != b {
                assert(pre.sessions@[a].session_id@ != pre.sessions@[b].session_id@);
            }
        }
    }

    /// Removes every session registered with the connection id; sessions on
    /// other connections stay, under their ids, unchanged.
    #[verifier::rlimit(30)]
    pub fn clear_session(&mut self, cid: &str)
        requires
            old(self).wf(),
        ensures
            final(self).wf(),
            forall|i: int|
                0 <= i < final(self).sessions@.len() ==> (
                #[trigger] final(self).sessions@[i]).session.cid@ != cid@,
            forall|i: int|
                0 <= i < old(self).sessions@.len() && (
                #[trigger] old(self).sessions@[i]).session.cid@ != cid@ ==> final(self).spec_has_session(old(self).sessions@[i].session_id@) && final(self).spec_session_for(old(self).sessions@[i].session_id@) == old(self).sessions@[i].session,
            forall|sid: Seq<char>|
                final(self).spec_has_session(sid) ==> old(self).spec_has_session(sid),
    {
        let n = self.sessions.len();
        let mut kept: Vec<SessionRecord> = Vec::new();
        let mut i: usize = 0;
        while i < n
            invariant
                old(self).wf(),
                n == old(self).sessions@.len(),
                self.sessions@ == old(self).sessions@,
                i <= n,
                forall|k: int|
                    0 <= k < kept@.len() ==> (#[trigger] kept@[k]).session.cid@ != cid@,
                forall|k: int|
                    0 <= k < kept@.len() ==> exists|m: int|
                        0 <= m < i && (#[trigger] kept@[k]) == old(self).sessions@[m],
                forall|m: int|
                    0 <= m < i && (#[trigger] old(self).sessions@[m]).session.cid@ != cid@
                        ==> exists|k: int|
                        0 <= k < kept@.len() && (#[trigger] kept@[k]) == old(self).sessions@[m],
                forall|k1: int, k2: int|
                    0 <= k1 < k2 < kept@.len() ==> (#[trigger] kept@[k1]).session_id@ != (
                    #[trigger] kept@[k2]).session_id@,
            decreases n - i,
        {
            if !str_eq(self.sessions[i].session.cid.as_str(), cid) {
                let ghost kept0 = kept@;
                let record = SessionRecord {
                    session_id: self.sessions[i].session_id.clone(),
                    session: self.sessions[i].session.clone(),
                };
                kept.push(record);
                proof {
                    assert(kept@[kept0.len() as int] == old(self).sessions@[i as int]);
                    assert forall|k1: int, k2: int|
                        0 <= k1 < k2 < kept@.len() implies (#[trigger] kept@[k1]).session_id@ != (
                    #[trigger] kept@[k2]).session_id@ by {
                        if k2 == kept0.len() {
                            assert(kept@[k1] == kept0[k1]);
                            let m = choose|m: int|
                                0 <= m < i && (#[trigger] kept0[k1]) == old(self).sessions@[m];
                            assert(old(self).sessions@[m].session_id@ != old(
                                self,
                            ).sessions@[i as int].session_id@);
                        } else {
                            assert(kept@[k1] == kept0[k1]);
                            assert(kept@[k2] == kept0[k2]);
                        }
                    }
                    assert forall|m: int|
                        0 <= m < i + 1 && (#[trigger] old(self).sessions@[m]).session.cid@
                            != cid@ implies exists|k: int|
                        0 <= k < kept@.len() && (#[trigger] kept@[k]) == old(
                            self,
                        ).sessions@[m] by {
                        if m < i {
                            let k = choose|k: int|
                                0 <= k < kept0.len() && (#[trigger] kept0[k]) == old(
                                    self,
                                ).sessions@[m];
                            assert(kept@[k] == old(self).sessions@[m]);
                        } else {
                            assert(kept@[kept0.len() as int] == old(self).sessions@[m]);
                        }
                    }
                }
            }
            i = i + 1;
        }
        self.sessions = kept;
    }
}

} // verus!
