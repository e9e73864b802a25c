//! Resolved request identities: the permission set, the `User` identity with
//! its anonymous guest default, and the two halves of the identity resolver.
//!
//! Resolution is split at its suspension point. `resolve_principal` decides,
//! with no external call, whether a stored principal needs a lookup at all;
//! `resolve_loaded` turns the outcome of that lookup into an identity,
//! degrading every failure to the anonymous guest rather than propagating it.

use crate::error::Error;
use crate::model::{Uid, UserTransportModel};
use vstd::prelude::*;

verus! {

/// The fixed id of the anonymous guest identity
/// (`b416d7eb-7c5b-4133-96a4-49c860cea964` as a 128-bit value).
pub const GUEST_ID: u128 = 0xb416d7eb_7c5b_4133_96a4_49c860cea964;

/// The base capability tag every identity starts with.
pub open spec fn base_tag() -> Seq<char> {
    "Category::View"@
}

/// The administrative capability tag granted to authenticated identities.
pub open spec fn admin_tag() -> Seq<char> {
    "Admin::View"@
}

/// The views of a sequence of strings, in order.
pub open spec fn views_of(tags: Seq<String>) -> Seq<Seq<char>> {
    tags.map_values(|t: String| t@)
}

/// A set of string capability tags, stored without duplicates.
pub struct PermissionSet {
    tags: Vec<String>,
}

impl PermissionSet {
    /// The tags as a sequence of character sequences, in insertion order.
    pub closed spec fn spec_tags(&self) -> Seq<Seq<char>> {
        views_of(self.tags@)
    }

    /// Whether `tag` is one of the stored tags.
    pub open spec fn spec_has(&self, tag: Seq<char>) -> bool {
        self.spec_tags().contains(tag)
    }

    /// No tag occurs twice.
    pub open spec fn wf(&self) -> bool {
        forall|i: int, j: int|
            0 <= i < j < self.spec_tags().len() ==> self.spec_tags()[i] != self.spec_tags()[j]
    }

    pub fn empty() -> (r: Self)
        ensures
            r.spec_tags() =~= Seq::<Seq<char>>::empty(),
            r.wf(),
    {
        PermissionSet { tags: Vec::new() }
    }

    /// How many tags are stored.
    pub fn len(&self) -> (n: usize)
        ensures
            n == self.spec_tags().len(),
    {
        self.tags.len()
    }

    /// The tag at position `i`, in insertion order.
    pub fn tag_at(&self, i: usize) -> (t: &String)
        requires
            i < self.spec_tags().len(),
        ensures
            t@ == self.spec_tags()[i as int],
    {
        &self.tags[i]
    }

    /// Whether `tag` is one of the stored tags.
    pub fn has(&self, tag: &String) -> (r: bool)
        ensures
            r == self.spec_has(tag@),
    {
        let mut i: usize = 0;
        while i < self.tags.len()
            invariant
                i <= self.spec_tags().len(),
                forall|k: int| 0 <= k < i ==> self.spec_tags()[k] != tag@,
            decreases self.spec_tags().len() - i,
        {
            if self.tags[i] == *tag {
                assert(self.spec_tags()[i as int] == tag@);
                return true;
            }
            i += 1;
        }
        false
    }

    /// Adds `tag` unless it is already present.
    pub fn insert(&mut self, tag: String)
        requires
            old(self).wf(),
        ensures
            final(self).wf(),
            old(self).spec_has(tag@) ==> final(self).spec_tags() =~= old(self).spec_tags(),
            !old(self).spec_has(tag@) ==> final(self).spec_tags() =~= old(self).spec_tags().push(
                tag@,
            ),
    {
        if !self.has(&tag) {
            let ghost pre = self.spec_tags();
            self.tags.push(tag);
            assert(self.spec_tags() =~= pre.push(tag@));
        }
    }

    /// Whether any of `required` is among the stored tags.
    pub open spec fn spec_has_any(&self, required: Seq<Seq<char>>) -> bool {
        exists|i: int| 0 <= i < required.len() && self.spec_has(required[i])
    }

    /// Whether every one of `required` is among the stored tags.
    pub open spec fn spec_has_all(&self, required: Seq<Seq<char>>) -> bool {
        forall|i: int| 0 <= i < required.len() ==> self.spec_has(required[i])
    }

    pub fn has_any(&self, required: &Vec<String>) -> (r: bool)
        ensures
            r == self.spec_has_any(views_of(required@)),
    {
        let mut i: usize = 0;
        while i < required.len()
            invariant
                i <= required@.len(),
                forall|k: int| 0 <= k < i ==> !self.spec_has(views_of(required@)[k]),
            decreases required@.len() - i,
        {
            if self.has(&required[i]) {
                assert(views_of(required@)[i as int] == required@[i as int]@);
                assert(self.spec_has_any(views_of(required@)));
                return true;
            }
            assert(views_of(required@)[i as int] == required@[i as int]@);
            i += 1;
        }
        false
    }

    pub fn has_all(&self, required: &Vec<String>) -> (r: bool)
        ensures
            r == self.spec_has_all(views_of(required@)),
    {
        let mut i: usize = 0;
        while i < required.len()
            invariant
                i <= required@.len(),
                forall|k: int| 0 <= k < i ==> self.spec_has(views_of(required@)[k]),
            decreases required@.len() - i,
        {
            if !self.has(&required[i]) {
                assert(views_of(required@)[i as int] == required@[i as int]@);
                assert(!self.spec_has_all(views_of(required@)));
                return false;
            }
            assert(views_of(required@)[i as int] == required@[i as int]@);
            i += 1;
        }
        true
    }
}

/// A resolved request identity: constructed fresh on every request that
/// needs one, never persisted (only the id is, in the session).
pub struct User {
    pub id: Uid,
    pub anonymous: bool,
    pub username: String,
    pub permissions: PermissionSet,
}

/// The anonymous guest identity: the fixed guest id, the name `Guest`, and
/// exactly the base capability tag.
pub open spec fn is_guest(u: User) -> bool {
    &&& u.id.value == GUEST_ID
    &&& u.anonymous
    &&& u.username@ == "Guest"@
    &&& u.permissions.spec_tags() =~= seq![base_tag()]
    &&& u.permissions.wf()
}

impl User {
    pub fn is_authenticated(&self) -> (r: bool)
        ensures
            r == !self.anonymous,
    {
        !self.anonymous
    }

    pub fn is_active(&self) -> (r: bool)
        ensures
            r == !self.anonymous,
    {
        !self.anonymous
    }

    pub fn is_anonymous(&self) -> (r: bool)
        ensures
            r == self.anonymous,
    {
        self.anonymous
    }

    /// Whether this identity carries the capability tag `perm`.
    pub fn has(&self, perm: &String) -> (r: bool)
        ensures
            r == self.permissions.spec_has(perm@),
    {
        self.permissions.has(perm)
    }
}

impl Default for User {
    /// The anonymous guest identity.
    fn default() -> (r: Self)
        ensures
            is_guest(r),
    {
        let mut permissions = PermissionSet::empty();
        permissions.insert("Category::View".to_owned());
        assert(permissions.spec_tags() =~= seq![base_tag()]);
        User {
            id: Uid { value: GUEST_ID },
            anonymous: true,
            username: "Guest".to_owned(),
            permissions,
        }
    }
}

/// What the first half of the resolver decided: either the identity is
/// already known, or the principal's record must be fetched.
pub enum ResolveStep {
    Resolved(User),
    Lookup(Uid),
}

/// Decides whether resolving `principal` needs a credential-store lookup.
/// An absent principal resolves to the anonymous guest immediately, with no
/// external call; a bound principal asks for a fetch of that id.
pub fn resolve_principal(principal: Option<Uid>) -> (r: ResolveStep)
    ensures
        principal is None ==> (r matches ResolveStep::Resolved(u) && is_guest(u)),
        principal matches Some(id) ==> (r matches ResolveStep::Lookup(l) && l == id),
{
    match principal {
        None => ResolveStep::Resolved(User::default()),
        Some(id) => ResolveStep::Lookup(id),
    }
}

/// Turns the outcome of the credential-store fetch into an identity.
///
/// A fetched record yields an authenticated identity under that record's id
/// and name, carrying the base tag and the administrative tag. Any failure
/// (not found, network, decoding) degrades to the anonymous guest: identity
/// resolution never fails request handling.
pub fn resolve_loaded(fetched: Result<UserTransportModel, Error>) -> (r: User)
    ensures
        match fetched {
            Ok(u) => {
                &&& r.id == u.id
                &&& !r.anonymous
                &&& r.username@ == u.name@
                &&& r.permissions.spec_tags() =~= seq![base_tag(), admin_tag()]
                &&& r.permissions.wf()
            },
            Err(_) => is_guest(r),
        },
{
    match fetched {
        Ok(u) => {
            proof {
                reveal_strlit("Category::View");
                reveal_strlit("Admin::View");
                assert("Category::View"@.len() == 14);
                assert("Admin::View"@.len() == 11);
                assert("Category::View"@ != "Admin::View"@);
            }
            let mut permissions = PermissionSet::empty();
            permissions.insert("Category::View".to_owned());
            permissions.insert("Admin::View".to_owned());
            assert(permissions.spec_tags() =~= seq![base_tag(), admin_tag()]);
            User { id: u.id, anonymous: false, username: u.name, permissions }
        },
        Err(_) => User::default(),
    }
}

} // verus!
