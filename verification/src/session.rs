//! The session layer: the binding of a session to a principal, and a store
//! of such bindings keyed by the opaque session cookie token.
//!
//! The store answers reliably "who is bound": absence of a binding, or a
//! `None` value, is a valid non-error state that resolves to the anonymous
//! identity downstream; it is never an error here.

use crate::model::Uid;
use vstd::prelude::*;

verus! {

/// One session's authentication state: the principal bound by login, if any.
pub struct Session {
    principal: Option<Uid>,
}

impl Session {
    /// The bound principal, if any.
    pub closed spec fn spec_principal(&self) -> Option<Uid> {
        self.principal
    }

    /// A fresh session with no principal bound.
    pub fn new() -> (r: Self)
        ensures
            r.spec_principal() is None,
    {
        Session { principal: None }
    }

    /// Binds `principal` to this session. Idempotent, and last-write-wins:
    /// any prior binding is overwritten; `None` logs the session out.
    pub fn login_user(&mut self, principal: Option<Uid>)
        ensures
            final(self).spec_principal() == principal,
    {
        self.principal = principal;
    }

    /// Reads the bound principal. Absence is a valid, non-error state.
    pub fn current_principal(&self) -> (r: Option<Uid>)
        ensures
            r == self.spec_principal(),
    {
        self.principal
    }

    /// Whether no principal is bound.
    pub fn is_anonymous(&self) -> (r: bool)
        ensures
            r == (self.spec_principal() is None),
    {
        self.principal.is_none()
    }
}

/// What binding `principal` under `token` does to a well-formed store:
/// reads under `token` now see `principal`, whatever they saw before, and
/// every other token's state is untouched.
pub open spec fn bind_post(
    pre: SessionStore,
    post: SessionStore,
    token: Seq<char>,
    principal: Option<Uid>,
) -> bool {
    &&& post.wf()
    &&& post.spec_principal_of(token) == principal
    &&& post.spec_contains(token)
    &&& forall|t: Seq<char>| t != token ==> post.spec_principal_of(t) == pre.spec_principal_of(t)
    &&& forall|t: Seq<char>| t != token ==> post.spec_contains(t) == pre.spec_contains(t)
}

/// Session binding is last-write-wins: after logging in as `a` and then
/// as `b` on the same session token, a read of that token's principal
/// returns `b`, and sessions under other tokens kept the state they had
/// at the start.
pub proof fn lemma_binding_last_write_wins(
    s0: SessionStore,
    s1: SessionStore,
    s2: SessionStore,
    token: Seq<char>,
    a: Option<Uid>,
    b: Option<Uid>,
)
    requires
        bind_post(s0, s1, token, a),
        bind_post(s1, s2, token, b),
    ensures
        s2.spec_principal_of(token) == b,
        forall|t: Seq<char>| t != token ==> s2.spec_principal_of(t) == s0.spec_principal_of(t),
{
}

/// One record of the session store: a cookie token and its session state.
pub struct SessionRecord {
    pub token: String,
    pub principal: Option<Uid>,
}

/// What one store record looks like at the specification level.
pub struct SessionEntry {
    pub token: Seq<char>,
    pub principal: Option<Uid>,
}

/// A store of session bindings keyed by the opaque cookie token. Tokens are
/// unique; a token never seen maps to no entry.
pub struct SessionStore {
    records: Vec<SessionRecord>,
}

impl SessionStore {
    /// The records, in insertion order.
    pub closed spec fn entries(&self) -> Seq<SessionEntry> {
        self.records@.map_values(
            |r: SessionRecord| SessionEntry { token: r.token@, principal: r.principal },
        )
    }

    /// Tokens are pairwise distinct.
    pub open spec fn wf(&self) -> bool {
        forall|i: int, j: int|
            0 <= i < j < self.entries().len() ==> self.entries()[i].token
                != self.entries()[j].token
    }

    /// Whether some record carries `token`.
    pub open spec fn spec_contains(&self, token: Seq<char>) -> bool {
        exists|i: int| 0 <= i < self.entries().len() && self.entries()[i].token == token
    }

    /// The principal bound under `token`: `None` when the token is unknown
    /// or the known session has no principal bound.
    pub open spec fn spec_principal_of(&self, token: Seq<char>) -> Option<Uid> {
        if self.spec_contains(token) {
            self.entries()[choose|i: int|
                0 <= i < self.entries().len() && self.entries()[i].token == token].principal
        } else {
            None
        }
    }

    pub fn new() -> (r: Self)
        ensures
            r.entries() =~= Seq::<SessionEntry>::empty(),
            r.wf(),
    {
        SessionStore { records: Vec::new() }
    }

    /// Finds the position of `token`, if it is known.
    fn position_of(&self, token: &String) -> (r: Option<usize>)
        ensures
            match r {
                Some(i) => 0 <= i < self.entries().len() && self.entries()[i as int].token
                    == token@,
                None => !self.spec_contains(token@),
            },
    {
        let mut i: usize = 0;
        while i < self.records.len()
            invariant
                i <= self.entries().len(),
                self.entries().len() == self.records@.len(),
                forall|k: int| 0 <= k < i ==> self.entries()[k].token != token@,
            decreases self.entries().len() - i,
        {
            assert(self.entries()[i as int].token == self.records@[i as int].token@);
            if self.records[i].token == *token {
                return Some(i);
            }
            i += 1;
        }
        None
    }

    /// Binds `principal` under `token`, creating the session record if the
    /// token is new. Last-write-wins: a prior binding under the same token
    /// is overwritten, and every other token's binding is untouched.
    pub fn bind(&mut self, token: &String, principal: Option<Uid>)
        requires
            old(self).wf(),
        ensures
            bind_post(*old(self), *final(self), token@, principal),
    {
        let ghost pre = self.entries();
        match self.position_of(token) {
            Some(i) => {
                self.records[i].principal = principal;
                assert(self.entries() =~= pre.update(
                    i as int,
                    SessionEntry { token: token@, principal },
                ));
                proof {
                    self.lemma_lookup_after_update(pre, i as int, token@, principal);
                }
            },
            None => {
                self.records.push(SessionRecord { token: token.clone(), principal });
                assert(self.entries() =~= pre.push(SessionEntry { token: token@, principal }));
                proof {
                    self.lemma_lookup_after_push(pre, token@, principal);
                }
            },
        }
    }

    /// After updating position `i` (which held `token`), lookups under
    /// `token` see the new principal and all other tokens are unchanged.
    proof fn lemma_lookup_after_update(
        &self,
        pre: Seq<SessionEntry>,
        i: int,
        token: Seq<char>,
        principal: Option<Uid>,
    )
        requires
            0 <= i < pre.len(),
            pre[i].token == token,
            forall|a: int, b: int| 0 <= a < b < pre.len() ==> pre[a].token != pre[b].token,
            self.entries() =~= pre.update(i, SessionEntry { token, principal }),
        ensures
            self.wf(),
            self.spec_principal_of(token) == principal,
            self.spec_contains(token),
            forall|t: Seq<char>|
                t != token ==> self.spec_principal_of(t) == Self::lookup_in(pre, t),
            forall|t: Seq<char>| t != token ==> self.spec_contains(t) == Self::contains_in(pre, t),
    {
        assert(self.entries()[i].token == token);
        assert(self.spec_contains(token));
        let w = choose|k: int|
            0 <= k < self.entries().len() && self.entries()[k].token == token;
        if w != i {
            assert(pre[w].token == token);
            assert(false);
        }
        assert forall|t: Seq<char>| t != token implies self.spec_principal_of(t)
            == Self::lookup_in(pre, t) && self.spec_contains(t) == Self::contains_in(pre, t) by {
            if self.spec_contains(t) {
                let a = choose|k: int|
                    0 <= k < self.entries().len() && self.entries()[k].token == t;
                assert(a != i);
                assert(pre[a].token == t);
                assert(Self::contains_in(pre, t));
                let b = choose|k: int| 0 <= k < pre.len() && pre[k].token == t;
                if b != a {
                    assert(false);
                }
                assert(self.entries()[a].principal == pre[a].principal);
            } else {
                if Self::contains_in(pre, t) {
                    let b = choose|k: int| 0 <= k < pre.len() && pre[k].token == t;
                    assert(b != i);
                    assert(self.entries()[b].token == t);
                    assert(false);
                }
            }
        }
    }

    /// After pushing a record for a `token` that no record held, lookups
    /// under `token` see the new principal and all other tokens are
    /// unchanged.
    proof fn lemma_lookup_after_push(
        &self,
        pre: Seq<SessionEntry>,
        token: Seq<char>,
        principal: Option<Uid>,
    )
        requires
            forall|k: int| 0 <= k < pre.len() ==> pre[k].token != token,
            forall|a: int, b: int| 0 <= a < b < pre.len() ==> pre[a].token != pre[b].token,
            self.entries() =~= pre.push(SessionEntry { token, principal }),
        ensures
            self.wf(),
            self.spec_principal_of(token) == principal,
            self.spec_contains(token),
            forall|t: Seq<char>|
                t != token ==> self.spec_principal_of(t) == Self::lookup_in(pre, t),
            forall|t: Seq<char>| t != token ==> self.spec_contains(t) == Self::contains_in(pre, t),
    {
        let n = pre.len() as int;
        assert(self.entries()[n].token == token);
        assert(self.spec_contains(token));
        let w = choose|k: int|
            0 <= k < self.entries().len() && self.entries()[k].token == token;
        if w != n {
            assert(pre[w].token == token);
            assert(false);
        }
        assert forall|t: Seq<char>| t != token implies self.spec_principal_of(t)
            == Self::lookup_in(pre, t) && self.spec_contains(t) == Self::contains_in(pre, t) by {
            if self.spec_contains(t) {
                let a = choose|k: int|
                    0 <= k < self.entries().len() && self.entries()[k].token == t;
                assert(a != n);
                assert(pre[a].token == t);
                let b = choose|k: int| 0 <= k < pre.len() && pre[k].token == t;
                if b != a {
                    assert(false);
                }
            } else {
                if Self::contains_in(pre, t) {
                    let b = choose|k: int| 0 <= k < pre.len() && pre[k].token == t;
                    assert(self.entries()[b].token == t);
                    assert(false);
                }
            }
        }
    }

    /// Whether some entry of `entries` carries `token`.
    pub open spec fn contains_in(entries: Seq<SessionEntry>, token: Seq<char>) -> bool {
        exists|i: int| 0 <= i < entries.len() && entries[i].token == token
    }

    /// The principal bound under `token` in `entries`, as in
    /// `spec_principal_of`.
    pub open spec fn lookup_in(entries: Seq<SessionEntry>, token: Seq<char>) -> Option<Uid> {
        if Self::contains_in(entries, token) {
            entries[choose|i: int|
                0 <= i < entries.len() && entries[i].token == token].principal
        } else {
            None
        }
    }

    /// Reads the principal bound under `token`: `None` when the token is
    /// unknown or no principal is bound. Read-only.
    pub fn current_principal(&self, token: &String) -> (r: Option<Uid>)
        requires
            self.wf(),
        ensures
            r == self.spec_principal_of(token@),
    {
        match self.position_of(token) {
            Some(i) => {
                proof {
                    let w = choose|k: int|
                        0 <= k < self.entries().len() && self.entries()[k].token == token@;
                    if w != i {
                        assert(false);
                    }
                }
                self.records[i].principal
            },
            None => None,
        }
    }

    /// Whether the session under `token` has no principal bound.
    pub fn is_anonymous(&self, token: &String) -> (r: bool)
        requires
            self.wf(),
        ensures
            r == (self.spec_principal_of(token@) is None),
    {
        self.current_principal(token).is_none()
    }
}

} // verus!
