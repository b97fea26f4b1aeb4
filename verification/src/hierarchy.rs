//! The role hierarchy: who inherits from whom, as the enforcer's role manager
//! tells it.
//!
//! The role manager knows the roles that a name is linked to. A role inherits from
//! itself, from the roles it is linked to, and from every role that these inherit
//! from, however long the chain. The library asks the enforcer for both: it
//! follows no link itself.

use vstd::prelude::*;
use casbin::{CoreApi, RbacApi, RoleManager};
use crate::text::list_contains;

verus! {

/// Whether the role manager of the enforcer lists `parent` among the roles of
/// `child` (`RoleManager::get_roles`, without a domain): a link leads from the one
/// to the other.
pub uninterp spec fn enforcer_role(e: casbin::Enforcer, child: Seq<char>, parent: Seq<char>) -> bool;

/// Whether each name of `path` is linked to the next.
pub open spec fn is_chain(e: casbin::Enforcer, path: Seq<Seq<char>>) -> bool {
    path.len() > 0 && forall|k: int|
        0 <= k < path.len() - 1 ==> enforcer_role(e, #[trigger] path[k], path[k + 1])
}

/// Whether `path` leads from `from` to `to` along the links.
pub open spec fn leads(e: casbin::Enforcer, path: Seq<Seq<char>>, from: Seq<char>, to: Seq<char>) -> bool {
    is_chain(e, path) && path[0] == from && path[path.len() - 1] == to
}

/// Whether one link or more lead from `role` to `ancestor`.
pub open spec fn reaches(e: casbin::Enforcer, role: Seq<char>, ancestor: Seq<char>) -> bool {
    exists|path: Seq<Seq<char>>| path.len() >= 2 && leads(e, path, role, ancestor)
}

/// Whether `role` inherits from `ancestor`: a chain of links leads from the one to
/// the other. Every role inherits from itself.
pub open spec fn inherits(e: casbin::Enforcer, role: Seq<char>, ancestor: Seq<char>) -> bool {
    exists|path: Seq<Seq<char>>| leads(e, path, role, ancestor)
}

/// Every role inherits from itself.
pub proof fn lemma_inherits_from_itself(e: casbin::Enforcer, role: Seq<char>)
    ensures
        inherits(e, role, role),
{
    assert(leads(e, seq![role], role, role));
}

/// A role inherits from another exactly where it is that role or links lead from
/// the one to the other.
pub proof fn lemma_inherits_is_self_or_reached(e: casbin::Enforcer, role: Seq<char>, ancestor: Seq<char>)
    ensures
        inherits(e, role, ancestor) <==> role == ancestor || reaches(e, role, ancestor),
{
    if inherits(e, role, ancestor) {
        let path = choose|path: Seq<Seq<char>>| leads(e, path, role, ancestor);
        if path.len() >= 2 {
            assert(reaches(e, role, ancestor));
        }
    }
    if role == ancestor {
        lemma_inherits_from_itself(e, role);
    }
    if reaches(e, role, ancestor) {
        let path = choose|path: Seq<Seq<char>>| path.len() >= 2 && leads(e, path, role, ancestor);
        assert(leads(e, path, role, ancestor));
    }
}

/// A role inherits from the roles that those it inherits from are linked to.
pub proof fn lemma_inherits_from_parent(
    e: casbin::Enforcer,
    role: Seq<char>,
    ancestor: Seq<char>,
    parent: Seq<char>,
)
    requires
        inherits(e, role, ancestor),
        enforcer_role(e, ancestor, parent),
    ensures
        inherits(e, role, parent),
        reaches(e, role, parent),
{
    let path = choose|path: Seq<Seq<char>>| leads(e, path, role, ancestor);
    let longer = path.push(parent);
    assert forall|k: int| 0 <= k < longer.len() - 1 implies enforcer_role(
        e,
        #[trigger] longer[k],
        longer[k + 1],
    ) by {
        if k < path.len() - 1 {
            assert(enforcer_role(e, path[k], path[k + 1]));
        }
    }
    assert(leads(e, longer, role, parent));
}

/// Inheritance is transitive: a role inherits from every role that one of its
/// ancestors inherits from.
pub proof fn lemma_inheritance_is_transitive(
    e: casbin::Enforcer,
    role: Seq<char>,
    middle: Seq<char>,
    ancestor: Seq<char>,
)
    requires
        inherits(e, role, middle),
        inherits(e, middle, ancestor),
    ensures
        inherits(e, role, ancestor),
{
    let first = choose|path: Seq<Seq<char>>| leads(e, path, role, middle);
    let second = choose|path: Seq<Seq<char>>| leads(e, path, middle, ancestor);
    let whole = first + second.drop_first();
    assert forall|k: int| 0 <= k < whole.len() - 1 implies enforcer_role(
        e,
        #[trigger] whole[k],
        whole[k + 1],
    ) by {
        if k < first.len() - 1 {
            assert(enforcer_role(e, first[k], first[k + 1]));
        } else {
            let at = k - first.len() + 1;
            assert(enforcer_role(e, second[at], second[at + 1]));
            if k == first.len() - 1 {
                assert(whole[k] == first[first.len() - 1]);
            } else {
                assert(whole[k] == second[at]);
            }
            assert(whole[k + 1] == second[at + 1]);
        }
    }
    assert(leads(e, whole, role, ancestor));
}

/// `RoleManager::get_roles` on the role manager of the enforcer
/// (`CoreApi::get_role_manager`), without a domain: the roles that `name` is linked
/// to, each once, in no order that could be told.
#[verifier::external_body]
fn direct_roles(e: &casbin::Enforcer, name: &str) -> (roles: Vec<String>)
    ensures
        forall|role: Seq<char>| #[trigger]
            roles.deep_view().contains(role) <==> enforcer_role(*e, name@, role),
{
    e.get_role_manager().read().get_roles(name, None)
}

/// `RbacApi::get_implicit_roles_for_user`, without a domain: the roles that `name`
/// has directly or through other roles. The enforcer asks its role manager for the
/// roles of the name, then for the roles of each role it has found, until it finds
/// no new one; so it finds exactly the roles that one link or more lead to, each
/// once, in no order that could be told.
#[verifier::external_body]
fn implicit_roles(e: &casbin::Enforcer, name: &str) -> (roles: Vec<String>)
    ensures
        forall|role: Seq<char>| #[trigger]
            roles.deep_view().contains(role) <==> reaches(*e, name@, role),
{
    e.get_implicit_roles_for_user(name, None)
}

/// Tells whether a link leads from `child` to `parent`.
pub fn has_role(e: &casbin::Enforcer, child: &str, parent: &str) -> (linked: bool)
    ensures
        linked == enforcer_role(*e, child@, parent@),
{
    let roles = direct_roles(e, child);
    list_contains(&roles, parent)
}

/// The role and every role it inherits from: the role first, then what the
/// enforcer finds above it.
pub fn ancestors(e: &casbin::Enforcer, role: &str) -> (out: Vec<String>)
    ensures
        out.len() > 0,
        out[0]@ == role@,
        forall|name: Seq<char>| #[trigger] out.deep_view().contains(name) <==> inherits(*e, role@, name),
{
    let above = implicit_roles(e, role);
    let mut out: Vec<String> = Vec::new();
    out.push(role.to_string());
    let mut i: usize = 0;
    while i < above.len()
        invariant
            i <= above.len(),
            out.len() == i + 1,
            out[0]@ == role@,
            forall|k: int| 0 <= k < i ==> out[k + 1]@ == above[k]@,
        decreases above.len() - i,
    {
        out.push(above[i].clone());
        i = i + 1;
    }
    proof {
        let all = out.deep_view();
        let found = above.deep_view();
        assert forall|name: Seq<char>| #[trigger] all.contains(name) <==> inherits(
            *e,
            role@,
            name,
        ) by {
            lemma_inherits_is_self_or_reached(*e, role@, name);
            if all.contains(name) {
                let k = choose|k: int| 0 <= k < all.len() && all[k] == name;
                if k > 0 {
                    assert(found[k - 1] == name);
                    assert(found.contains(name));
                }
            }
            if name == role@ {
                assert(all[0] == name);
            }
            if reaches(*e, role@, name) {
                assert(found.contains(name));
                let k = choose|k: int| 0 <= k < found.len() && found[k] == name;
                assert(all[k + 1] == name);
            }
        }
    }
    out
}

} // verus!
