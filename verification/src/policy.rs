//! Policy rules, the wire form of permissions, and the changes that bring the rules of
//! a role in line with a wanted list of permissions.
//!
//! A rule is a list of text fields; a permission rule has three: the role that is
//! granted, the object and the action. On the wire a permission is written
//! `object:action`.

use vstd::prelude::*;
use vstd::string::*;
use crate::text::{find_char_from, first_index_of, index_of_first, join3, list_contains};

verus! {

/// A rule as plain values: its fields in order.
pub type Rule = Seq<Seq<char>>;

/// One change to the policy state.
#[derive(Debug)]
pub enum PolicyChange {
    /// Add the rule; adding a rule that is there changes nothing.
    Add(Vec<String>),
    /// Remove the rule; removing a rule that is not there changes nothing.
    Remove(Vec<String>),
    /// Let `child` inherit what `parent` is granted.
    Link { child: String, parent: String },
}

/// A [`PolicyChange`] as plain values.
pub enum PolicyChangeView {
    Add(Rule),
    Remove(Rule),
    Link { child: Seq<char>, parent: Seq<char> },
}

impl View for PolicyChange {
    type V = PolicyChangeView;

    open spec fn view(&self) -> PolicyChangeView {
        match self {
            PolicyChange::Add(rule) => PolicyChangeView::Add(rule.deep_view()),
            PolicyChange::Remove(rule) => PolicyChangeView::Remove(rule.deep_view()),
            PolicyChange::Link { child, parent } => PolicyChangeView::Link {
                child: child@,
                parent: parent@,
            },
        }
    }
}

impl DeepView for PolicyChange {
    type V = PolicyChangeView;

    open spec fn deep_view(&self) -> PolicyChangeView {
        self@
    }
}

/// The wire form of a permission on `object` and `action`.
pub open spec fn permission_text(object: Seq<char>, action: Seq<char>) -> Seq<char> {
    object + seq![':'] + action
}

/// Object and action of a permission in wire form: the text must hold exactly one
/// colon, which parts the two. Anything else is malformed.
pub open spec fn split_permission(p: Seq<char>) -> Option<(Seq<char>, Seq<char>)> {
    let at = first_index_of(p, ':');
    if at < p.len() && !p.subrange(at + 1, p.len() as int).contains(':') {
        Some((p.subrange(0, at), p.subrange(at + 1, p.len() as int)))
    } else {
        None
    }
}

/// The permission that a rule grants, in wire form; only rules of three fields grant one.
pub open spec fn rule_permission(rule: Rule) -> Option<Seq<char>> {
    if rule.len() == 3 {
        Some(permission_text(rule[1], rule[2]))
    } else {
        None
    }
}

/// [`rule_permission`] as a function value.
pub open spec fn rule_permission_fn() -> spec_fn(Rule) -> Option<Seq<char>> {
    |rule: Rule| rule_permission(rule)
}

/// The permissions that the rules grant, in the order of the rules.
pub open spec fn permissions_of(policies: Seq<Rule>) -> Seq<Seq<char>> {
    policies.filter_map(rule_permission_fn())
}

/// The rule that grants `permission` to `role`, where the permission is well formed.
pub open spec fn rule_for(role: Seq<char>, permission: Seq<char>) -> Option<Rule> {
    match split_permission(permission) {
        Some((object, action)) => Some(seq![role, object, action]),
        None => None,
    }
}

/// The rule for `permission`, unless `have` lists the permission already.
pub open spec fn absent_rule(role: Seq<char>, have: Seq<Seq<char>>, permission: Seq<char>) -> Option<
    Rule,
> {
    if have.contains(permission) {
        None
    } else {
        rule_for(role, permission)
    }
}

/// [`absent_rule`] as a function value.
pub open spec fn absent_rule_fn(role: Seq<char>, have: Seq<Seq<char>>) -> spec_fn(Seq<char>) -> Option<
    Rule,
> {
    |permission: Seq<char>| absent_rule(role, have, permission)
}

/// The rules for the well-formed permissions of `wanted` that `have` does not list,
/// in the order of `wanted`.
pub open spec fn rules_absent_from(role: Seq<char>, wanted: Seq<Seq<char>>, have: Seq<Seq<char>>) -> Seq<
    Rule,
> {
    wanted.filter_map(absent_rule_fn(role, have))
}

/// Wraps rules as additions.
pub open spec fn additions(rules: Seq<Rule>) -> Seq<PolicyChangeView> {
    rules.map_values(|rule: Rule| PolicyChangeView::Add(rule))
}

/// Wraps rules as removals.
pub open spec fn removals(rules: Seq<Rule>) -> Seq<PolicyChangeView> {
    rules.map_values(|rule: Rule| PolicyChangeView::Remove(rule))
}

/// Whether a rule is wanted: it grants a permission that `wanted` lists.
pub open spec fn is_wanted(rule: Rule, wanted: Seq<Seq<char>>) -> bool {
    rule_permission(rule) matches Some(p) && wanted.contains(p)
}

/// The rule itself, unless it is wanted.
pub open spec fn unwanted_rule(wanted: Seq<Seq<char>>, rule: Rule) -> Option<Rule> {
    if is_wanted(rule, wanted) {
        None
    } else {
        Some(rule)
    }
}

/// [`unwanted_rule`] as a function value.
pub open spec fn unwanted_rule_fn(wanted: Seq<Seq<char>>) -> spec_fn(Rule) -> Option<Rule> {
    |rule: Rule| unwanted_rule(wanted, rule)
}

/// The rules of `current` that are not wanted, as they stand and in their order.
pub open spec fn unwanted_rules(current: Seq<Rule>, wanted: Seq<Seq<char>>) -> Seq<Rule> {
    current.filter_map(unwanted_rule_fn(wanted))
}

/// The changes that bring the rules of `role` in line with `wanted`.
///
/// With a wanted list: first an addition for each wanted permission that the current
/// rules do not grant, malformed permissions being passed over; then a removal of
/// each current rule that is not wanted, the rule as it stands. Without one: a
/// removal of every current rule.
pub open spec fn update_plan(role: Seq<char>, current: Seq<Rule>, wanted: Option<Seq<Seq<char>>>) -> Seq<
    PolicyChangeView,
> {
    match wanted {
        Some(w) => additions(rules_absent_from(role, w, permissions_of(current))) + removals(
            unwanted_rules(current, w),
        ),
        None => removals(current),
    }
}

/// With an empty list nothing is wanted: every current rule is removed, and nothing
/// is added.
pub proof fn lemma_empty_list_removes_all(role: Seq<char>, current: Seq<Rule>)
    ensures
        unwanted_rules(current, Seq::empty()) == current,
        update_plan(role, current, Some(Seq::empty())) == removals(current),
    decreases current.len(),
{
    let none = Seq::<Seq<char>>::empty();
    if current.len() > 0 {
        lemma_empty_list_removes_all(role, current.drop_last());
        assert(!is_wanted(current.last(), none));
        assert(current.drop_last() + seq![current.last()] =~= current);
    }
    assert(unwanted_rules(current, none) == current);
    assert(rules_absent_from(role, none, permissions_of(current)) =~= Seq::<Rule>::empty());
    assert(additions(Seq::<Rule>::empty()) + removals(current) =~= removals(current));
}

/// Writes a permission in wire form.
pub fn format_permission(object: &str, action: &str) -> (text: String)
    ensures
        text@ == permission_text(object@, action@),
{
    proof {
        reveal_strlit(":");
        assert(":"@ =~= seq![':']);
    }
    join3(object, ":", action)
}

/// Reads a permission in wire form; `None` for a malformed one.
pub fn parse_permission(p: &str) -> (parts: Option<(String, String)>)
    ensures
        match parts {
            Some((object, action)) => split_permission(p@) == Some((object@, action@)),
            None => split_permission(p@) is None,
        },
{
    let len = p.unicode_len();
    let at = index_of_first(p, ':');
    if at >= len {
        return None;
    }
    let next = find_char_from(p, ':', at + 1);
    let ghost tail = p@.subrange(at + 1, len as int);
    if next < len {
        proof {
            assert(tail[next - at - 1] == ':');
            assert(tail.contains(':'));
        }
        return None;
    }
    proof {
        if tail.contains(':') {
            let j = choose|j: int| 0 <= j < tail.len() && tail[j] == ':';
            assert(p@[at + 1 + j] == ':');
        }
    }
    let object = p.substring_char(0, at).to_string();
    let action = p.substring_char(at + 1, len).to_string();
    Some((object, action))
}

/// The permissions that the rules grant, in wire form and in the order of the rules.
/// Rules that do not have three fields grant none.
pub fn policy_permissions(policies: &Vec<Vec<String>>) -> (permissions: Vec<String>)
    ensures
        permissions.deep_view() == permissions_of(policies.deep_view()),
{
    let mut out: Vec<String> = Vec::new();
    let mut i: usize = 0;
    let ghost all = policies.deep_view();
    assert(all.take(0).filter_map(rule_permission_fn()) =~= Seq::<Seq<char>>::empty());
    assert(out.deep_view() =~= Seq::<Seq<char>>::empty());
    while i < policies.len()
        invariant
            i <= policies.len(),
            all == policies.deep_view(),
            out.deep_view() == all.take(i as int).filter_map(rule_permission_fn()),
        decreases policies.len() - i,
    {
        let rule = &policies[i];
        let ghost before = out.deep_view();
        proof {
            all.lemma_filter_map_take_succ(rule_permission_fn(), i as int);
            assert(all[i as int] == rule.deep_view());
        }
        if rule.len() == 3 {
            let text = format_permission(rule[1].as_str(), rule[2].as_str());
            out.push(text);
            proof {
                assert(rule.deep_view()[1] == rule@[1]@);
                assert(rule.deep_view()[2] == rule@[2]@);
                assert(out.deep_view() =~= before + seq![text@]);
            }
        }
        i = i + 1;
    }
    assert(all.take(i as int) =~= all);
    out
}

/// The rules for the well-formed permissions of `wanted` that `have` does not list.
pub fn absent_rules(role: &str, wanted: &Vec<String>, have: &Vec<String>) -> (rules: Vec<Vec<String>>)
    ensures
        rules.deep_view() == rules_absent_from(role@, wanted.deep_view(), have.deep_view()),
{
    let mut out: Vec<Vec<String>> = Vec::new();
    let mut i: usize = 0;
    let ghost all = wanted.deep_view();
    let ghost f = absent_rule_fn(role@, have.deep_view());
    assert(all.take(0).filter_map(f) =~= Seq::<Rule>::empty());
    assert(out.deep_view() =~= Seq::<Rule>::empty());
    while i < wanted.len()
        invariant
            i <= wanted.len(),
            all == wanted.deep_view(),
            f == absent_rule_fn(role@, have.deep_view()),
            out.deep_view() == all.take(i as int).filter_map(f),
        decreases wanted.len() - i,
    {
        let permission = &wanted[i];
        let ghost before = out.deep_view();
        proof {
            all.lemma_filter_map_take_succ(f, i as int);
            assert(all[i as int] == permission@);
        }
        if !list_contains(have, permission.as_str()) {
            match parse_permission(permission.as_str()) {
                Some((object, action)) => {
                    let mut rule: Vec<String> = Vec::new();
                    rule.push(role.to_string());
                    rule.push(object);
                    rule.push(action);
                    proof {
                        assert(rule.deep_view() =~= seq![role@, object@, action@]);
                    }
                    let ghost added = rule.deep_view();
                    out.push(rule);
                    proof {
                        assert(out.deep_view() =~= before + seq![added]);
                    }
                },
                None => {},
            }
        }
        i = i + 1;
    }
    assert(all.take(i as int) =~= all);
    out
}

/// Copies a rule.
pub fn copy_rule(rule: &Vec<String>) -> (copy: Vec<String>)
    ensures
        copy.deep_view() == rule.deep_view(),
{
    let mut out: Vec<String> = Vec::new();
    let mut i: usize = 0;
    while i < rule.len()
        invariant
            i <= rule.len(),
            out.len() == i,
            forall|j: int| 0 <= j < i ==> out@[j]@ == rule@[j]@,
        decreases rule.len() - i,
    {
        out.push(rule[i].clone());
        i = i + 1;
    }
    assert(out.deep_view() =~= rule.deep_view());
    out
}

/// The rules of `current` that `wanted` does not ask for, as they stand.
pub fn rules_not_wanted(current: &Vec<Vec<String>>, wanted: &Vec<String>) -> (rules: Vec<Vec<String>>)
    ensures
        rules.deep_view() == unwanted_rules(current.deep_view(), wanted.deep_view()),
{
    let mut out: Vec<Vec<String>> = Vec::new();
    let mut i: usize = 0;
    let ghost all = current.deep_view();
    let ghost f = unwanted_rule_fn(wanted.deep_view());
    assert(all.take(0).filter_map(f) =~= Seq::<Rule>::empty());
    assert(out.deep_view() =~= Seq::<Rule>::empty());
    while i < current.len()
        invariant
            i <= current.len(),
            all == current.deep_view(),
            f == unwanted_rule_fn(wanted.deep_view()),
            out.deep_view() == all.take(i as int).filter_map(f),
        decreases current.len() - i,
    {
        let rule = &current[i];
        let ghost before = out.deep_view();
        proof {
            all.lemma_filter_map_take_succ(f, i as int);
            assert(all[i as int] == rule.deep_view());
        }
        let wanted_here = if rule.len() == 3 {
            proof {
                assert(rule.deep_view()[1] == rule@[1]@);
                assert(rule.deep_view()[2] == rule@[2]@);
            }
            let text = format_permission(rule[1].as_str(), rule[2].as_str());
            list_contains(wanted, text.as_str())
        } else {
            false
        };
        if !wanted_here {
            let kept = copy_rule(rule);
            out.push(kept);
            proof {
                assert(out.deep_view() =~= before + seq![rule.deep_view()]);
            }
        }
        i = i + 1;
    }
    assert(all.take(i as int) =~= all);
    out
}

/// The rule that a change adds, where it is an addition.
pub open spec fn added_rule(change: PolicyChangeView) -> Option<Rule> {
    match change {
        PolicyChangeView::Add(rule) => Some(rule),
        _ => None,
    }
}

/// [`added_rule`] as a function value.
pub open spec fn added_rule_fn() -> spec_fn(PolicyChangeView) -> Option<Rule> {
    |change: PolicyChangeView| added_rule(change)
}

/// The rules that a plan adds, in the order of the plan.
pub open spec fn rules_added(plan: Seq<PolicyChangeView>) -> Seq<Rule> {
    plan.filter_map(added_rule_fn())
}

/// A plan of additions adds exactly the rules it was made of.
pub proof fn lemma_additions_are_added(rules: Seq<Rule>)
    ensures
        rules_added(additions(rules)) == rules,
    decreases rules.len(),
{
    if rules.len() > 0 {
        let rest = rules.drop_last();
        lemma_additions_are_added(rest);
        assert(additions(rules).drop_last() =~= additions(rest));
        assert(additions(rules).last() == PolicyChangeView::Add(rules.last()));
        assert(rest + seq![rules.last()] =~= rules);
    } else {
        assert(rules_added(additions(rules)) =~= rules);
    }
}

/// The rules that a plan adds, in the order of the plan.
pub fn added_rules(plan: &Vec<PolicyChange>) -> (rules: Vec<Vec<String>>)
    ensures
        rules.deep_view() == rules_added(plan.deep_view()),
{
    let mut out: Vec<Vec<String>> = Vec::new();
    let mut i: usize = 0;
    let ghost all = plan.deep_view();
    let ghost f = added_rule_fn();
    assert(all.take(0).filter_map(f) =~= Seq::<Rule>::empty());
    assert(out.deep_view() =~= Seq::<Rule>::empty());
    while i < plan.len()
        invariant
            i <= plan.len(),
            all == plan.deep_view(),
            f == added_rule_fn(),
            out.deep_view() == all.take(i as int).filter_map(f),
        decreases plan.len() - i,
    {
        let ghost before = out.deep_view();
        proof {
            all.lemma_filter_map_take_succ(f, i as int);
            assert(all[i as int] == plan@[i as int]@);
        }
        match &plan[i] {
            PolicyChange::Add(rule) => {
                let kept = copy_rule(rule);
                out.push(kept);
                proof {
                    assert(out.deep_view() =~= before + seq![rule.deep_view()]);
                }
            },
            _ => {},
        }
        i = i + 1;
    }
    assert(all.take(i as int) =~= all);
    out
}

/// Appends to `plan` an addition (`add`) or a removal (otherwise) of each rule, in order.
pub fn push_changes(plan: &mut Vec<PolicyChange>, rules: &Vec<Vec<String>>, add: bool)
    ensures
        final(plan).deep_view() == old(plan).deep_view() + (if add {
            additions(rules.deep_view())
        } else {
            removals(rules.deep_view())
        }),
{
    let ghost start = plan.deep_view();
    let ghost all = rules.deep_view();
    let ghost wrapped = if add {
        additions(all)
    } else {
        removals(all)
    };
    let mut i: usize = 0;
    assert(plan.deep_view() =~= start + wrapped.take(0));
    while i < rules.len()
        invariant
            i <= rules.len(),
            all == rules.deep_view(),
            wrapped == (if add {
                additions(all)
            } else {
                removals(all)
            }),
            wrapped.len() == all.len(),
            plan.deep_view() == start + wrapped.take(i as int),
        decreases rules.len() - i,
    {
        let rule = copy_rule(&rules[i]);
        let ghost before = plan.deep_view();
        let change = if add {
            PolicyChange::Add(rule)
        } else {
            PolicyChange::Remove(rule)
        };
        proof {
            assert(all[i as int] == rules@[i as int].deep_view());
            assert(change@ == wrapped[i as int]);
        }
        plan.push(change);
        proof {
            assert(plan.deep_view() =~= before.push(change@));
            assert(start + wrapped.take(i + 1) =~= (start + wrapped.take(i as int)).push(
                wrapped[i as int],
            ));
        }
        i = i + 1;
    }
    assert(wrapped.take(i as int) =~= wrapped);
}

/// The characters of an optional list of texts.
pub open spec fn opt_list_view(list: Option<Vec<String>>) -> Option<Seq<Seq<char>>> {
    match list {
        Some(l) => Some(l.deep_view()),
        None => None,
    }
}

/// Plans the changes that bring the rules of `role` in line with `wanted`, given the
/// rules that the role has now.
pub fn plan_role_update(role: &str, current: &Vec<Vec<String>>, wanted: &Option<Vec<String>>) -> (plan:
    Vec<PolicyChange>)
    ensures
        plan.deep_view() == update_plan(role@, current.deep_view(), opt_list_view(*wanted)),
{
    let mut plan: Vec<PolicyChange> = Vec::new();
    assert(plan.deep_view() =~= Seq::<PolicyChangeView>::empty());
    match wanted {
        Some(permissions) => {
            let have = policy_permissions(current);
            let to_add = absent_rules(role, permissions, &have);
            let to_remove = rules_not_wanted(current, permissions);
            push_changes(&mut plan, &to_add, true);
            push_changes(&mut plan, &to_remove, false);
            assert(plan.deep_view() =~= additions(to_add.deep_view()) + removals(
                to_remove.deep_view(),
            ));
        },
        None => {
            push_changes(&mut plan, current, false);
            assert(plan.deep_view() =~= removals(current.deep_view()));
        },
    }
    plan
}

} // verus!
