//! The authorization decision: a small permission-expression type
//! evaluated as a pure function of a resolved identity's permission set.

use crate::identity::{User, admin_tag, is_guest, views_of};
use vstd::prelude::*;

verus! {

/// An HTTP method, as the authorizer receives it. The method is taken
/// along but does not vary the decision.
#[derive(Clone, Copy, Debug, PartialEq, Eq, Structural)]
pub enum HttpMethod {
    Get,
    Post,
    Put,
    Delete,
}

/// A requirement over permission tags: any of the tags, or all of them.
pub enum PermissionExpr {
    Any(Vec<String>),
    All(Vec<String>),
}

/// Whether `user`'s permission set satisfies `required`: for `Any`, the
/// set intersects the required tags; for `All`, it covers them.
pub open spec fn spec_satisfies(user: &User, required: &PermissionExpr) -> bool {
    match required {
        PermissionExpr::Any(tags) => user.permissions.spec_has_any(views_of(tags@)),
        PermissionExpr::All(tags) => user.permissions.spec_has_all(views_of(tags@)),
    }
}

/// Evaluates whether `user` satisfies `required`. Pure: no side effects,
/// and the method does not vary the outcome.
pub fn authorize(user: &User, _method: HttpMethod, required: &PermissionExpr) -> (r: bool)
    ensures
        r == spec_satisfies(user, required),
{
    match required {
        PermissionExpr::Any(tags) => user.permissions.has_any(tags),
        PermissionExpr::All(tags) => user.permissions.has_all(tags),
    }
}

/// The anonymous guest identity does not satisfy any requirement that asks
/// for the administrative tag alone: its only tag is the base tag.
pub proof fn lemma_guest_lacks_admin(u: User, required: Seq<Seq<char>>)
    requires
        is_guest(u),
        required =~= seq![admin_tag()],
    ensures
        !u.permissions.spec_has_any(required),
{
    reveal_strlit("Category::View");
    reveal_strlit("Admin::View");
    assert("Category::View"@.len() == 14);
    assert("Admin::View"@.len() == 11);
    if u.permissions.spec_has_any(required) {
        let i = choose|i: int| 0 <= i < required.len() && u.permissions.spec_has(required[i]);
        assert(required[i] == admin_tag());
        let j = choose|j: int|
            0 <= j < u.permissions.spec_tags().len() && u.permissions.spec_tags()[j]
                == admin_tag();
        assert(u.permissions.spec_tags()[j] == "Category::View"@);
        assert(false);
    }
}

/// The corollary at the authorizer: the anonymous guest is turned away
/// from any route that requires the administrative tag alone.
pub proof fn lemma_guest_denied_admin_route(u: User, required: PermissionExpr)
    requires
        is_guest(u),
        required matches PermissionExpr::Any(tags) && views_of(tags@) =~= seq![admin_tag()],
    ensures
        !spec_satisfies(&u, &required),
{
    if let PermissionExpr::Any(tags) = required {
        lemma_guest_lacks_admin(u, views_of(tags@));
    }
}

} // verus!
