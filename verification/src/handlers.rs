//! The permission page of the website tier: renders the caller's resolved
//! permission set, or a rejection line when the identity satisfies neither
//! of the page's required tags.

use crate::authz::{HttpMethod, PermissionExpr, authorize, spec_satisfies};
use crate::identity::{User, admin_tag, base_tag, views_of};
use crate::model::uid_text;
use vstd::prelude::*;

verus! {

/// The tags joined with a comma-and-space separator, in order.
pub open spec fn join_tags(tags: Seq<Seq<char>>) -> Seq<char>
    decreases tags.len(),
{
    if tags.len() == 0 {
        Seq::empty()
    } else if tags.len() == 1 {
        tags[0]
    } else {
        join_tags(tags.drop_last()) + ", "@ + tags.last()
    }
}

/// The rejection line of the permission page.
pub open spec fn perm_denied_message(user: &User) -> Seq<char> {
    "User "@ + user.username@
        + ", does not have permissions needed to view this page please login"@
}

/// The success line of the permission page: the user's id, name and full
/// permission set.
pub open spec fn perm_allowed_message(user: &User) -> Seq<char> {
    "User id "@ + uid_text(user.id.value) + " and name "@ + user.username@
        + " has the permissions needed. Permissions: "@ + join_tags(
        user.permissions.spec_tags(),
    )
}

/// Joins the user's permission tags with `, `.
fn joined_tags(user: &User) -> (r: String)
    ensures
        r@ == join_tags(user.permissions.spec_tags()),
{
    let ghost tags = user.permissions.spec_tags();
    let mut joined = String::new();
    let n = user.permissions.len();
    let mut i: usize = 0;
    while i < n
        invariant
            i <= n,
            n == tags.len(),
            tags == user.permissions.spec_tags(),
            joined@ == join_tags(tags.take(i as int)),
        decreases n - i,
    {
        if i > 0 {
            joined.append(", ");
        }
        joined.append(user.permissions.tag_at(i).as_str());
        proof {
            let t = tags.take(i + 1 as int);
            if i == 0 {
                assert(t.len() == 1);
                assert(join_tags(t) == t[0]);
                assert(join_tags(tags.take(0)) == Seq::<char>::empty());
                assert(joined@ =~= t[0]);
            } else {
                assert(t.drop_last() =~= tags.take(i as int));
                assert(join_tags(t) == join_tags(tags.take(i as int)) + ", "@ + t.last());
                assert(joined@ =~= join_tags(t));
            }
        }
        i += 1;
    }
    proof {
        assert(tags.take(n as int) =~= tags);
    }
    joined
}

/// Renders the permission page for a resolved identity: the page requires
/// any of the base tag and the administrative tag; an identity that holds
/// neither is told to log in, any other is shown its permission set.
pub fn perm(method: HttpMethod, user: &User) -> (s: String)
    ensures
        user.permissions.spec_has_any(seq![base_tag(), admin_tag()]) ==> s@
            == perm_allowed_message(user),
        !user.permissions.spec_has_any(seq![base_tag(), admin_tag()]) ==> s@
            == perm_denied_message(user),
{
    let mut required: Vec<String> = Vec::new();
    required.push("Category::View".to_owned());
    required.push("Admin::View".to_owned());
    assert(views_of(required@) =~= seq![base_tag(), admin_tag()]);
    let expr = PermissionExpr::Any(required);
    let allowed = authorize(user, method, &expr);
    let mut s = String::new();
    if allowed {
        s.append("User id ");
        let id_text = user.id.to_text();
        s.append(id_text.as_str());
        s.append(" and name ");
        s.append(user.username.as_str());
        s.append(" has the permissions needed. Permissions: ");
        let joined = joined_tags(user);
        s.append(joined.as_str());
        assert(s@ =~= perm_allowed_message(user));
    } else {
        s.append("User ");
        s.append(user.username.as_str());
        s.append(", does not have permissions needed to view this page please login");
        assert(s@ =~= perm_denied_message(user));
    }
    s
}

} // verus!
