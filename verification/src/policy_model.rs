//! The policy state as a mathematical model, and what holds of the planned changes when
//! they are applied to it.

use vstd::prelude::*;
use crate::policy::{
    absent_rule_fn, additions, is_wanted, lemma_empty_list_removes_all, permission_text,
    permissions_of, removals, rule_for, rule_permission, rule_permission_fn, rules_absent_from,
    split_permission, unwanted_rule_fn, unwanted_rules, update_plan, PolicyChangeView, Rule,
};
use crate::text::{first_index_of, lemma_first_index_of};

verus! {

/// The policy state: the set of rules and the set of inheritance links
/// (child, parent). Rules and links have set semantics: a rule is identified by
/// all of its fields.
pub struct PolicyStore {
    pub rules: Set<Rule>,
    pub links: Set<(Seq<char>, Seq<char>)>,
}

/// The state after one change.
pub open spec fn apply_change(store: PolicyStore, change: PolicyChangeView) -> PolicyStore {
    match change {
        PolicyChangeView::Add(rule) => PolicyStore { rules: store.rules.insert(rule), ..store },
        PolicyChangeView::Remove(rule) => PolicyStore { rules: store.rules.remove(rule), ..store },
        PolicyChangeView::Link { child, parent } => PolicyStore {
            links: store.links.insert((child, parent)),
            ..store
        },
    }
}

/// The state after the changes of `plan`, applied in order.
pub open spec fn apply_changes(store: PolicyStore, plan: Seq<PolicyChangeView>) -> PolicyStore
    decreases plan.len(),
{
    if plan.len() == 0 {
        store
    } else {
        apply_change(apply_changes(store, plan.drop_last()), plan.last())
    }
}

/// Whether a rule is listed under `subject`: its first field is the subject. An empty
/// subject stands for any.
pub open spec fn matches_subject(rule: Rule, subject: Seq<char>) -> bool {
    subject.len() == 0 || (rule.len() > 0 && rule[0] == subject)
}

/// Whether `list` holds exactly the rules of `store` that are listed under `subject`.
pub open spec fn lists_subject(list: Seq<Rule>, store: PolicyStore, subject: Seq<char>) -> bool {
    forall|rule: Rule|
        #[trigger] list.contains(rule) <==> store.rules.contains(rule) && matches_subject(
            rule,
            subject,
        )
}

/// A well-formed permission is the wire form of its two parts.
pub proof fn lemma_split_then_format(p: Seq<char>)
    requires
        split_permission(p) is Some,
    ensures
        permission_text((split_permission(p)->0).0, (split_permission(p)->0).1) == p,
{
    lemma_first_index_of(p, ':');
    let at = first_index_of(p, ':');
    assert(p.subrange(0, at) + seq![':'] + p.subrange(at + 1, p.len() as int) =~= p);
}

/// Where the wire form of two parts is well formed, splitting it gives the two parts back.
pub proof fn lemma_format_then_split(object: Seq<char>, action: Seq<char>)
    requires
        split_permission(permission_text(object, action)) is Some,
    ensures
        split_permission(permission_text(object, action)) == Some((object, action)),
{
    let p = permission_text(object, action);
    lemma_first_index_of(p, ':');
    let at = first_index_of(p, ':');
    let mid = object.len() as int;
    assert(p[mid] == ':');
    if at < mid {
        let tail = p.subrange(at + 1, p.len() as int);
        assert(tail[mid - at - 1] == ':');
        assert(tail.contains(':'));
    }
    assert(at == mid);
    assert(p.subrange(0, at) =~= object);
    assert(p.subrange(at + 1, p.len() as int) =~= action);
}

/// What `filter_map` yields for an element of the sequence is an element of the result.
pub proof fn lemma_filter_map_keeps<A, B>(s: Seq<A>, f: spec_fn(A) -> Option<B>, x: A)
    requires
        s.contains(x),
        f(x) is Some,
    ensures
        s.filter_map(f).contains(f(x)->0),
    decreases s.len(),
{
    broadcast use vstd::seq_lib::group_seq_properties;

    if s.len() > 0 {
        let rest = s.drop_last();
        if s.last() == x {
            let r = rest.filter_map(f) + seq![f(x)->0];
            assert(r[r.len() - 1] == f(x)->0);
        } else {
            let i = choose|i: int| 0 <= i < s.len() && s[i] == x;
            assert(rest[i] == x);
            lemma_filter_map_keeps(rest, f, x);
        }
    }
}

/// Applying one plan after another is applying the two in a row.
pub proof fn lemma_apply_concat(store: PolicyStore, p: Seq<PolicyChangeView>, q: Seq<PolicyChangeView>)
    ensures
        apply_changes(store, p + q) == apply_changes(apply_changes(store, p), q),
    decreases q.len(),
{
    if q.len() == 0 {
        assert(p + q =~= p);
    } else {
        lemma_apply_concat(store, p, q.drop_last());
        assert((p + q).drop_last() =~= p + q.drop_last());
        assert((p + q).last() == q.last());
    }
}

/// Additions leave the links alone and add exactly the rules of the list.
pub proof fn lemma_apply_additions(store: PolicyStore, rules: Seq<Rule>)
    ensures
        apply_changes(store, additions(rules)).links == store.links,
        forall|r: Rule|
            #[trigger] apply_changes(store, additions(rules)).rules.contains(r)
                <==> store.rules.contains(r) || rules.contains(r),
    decreases rules.len(),
{
    if rules.len() > 0 {
        let rest = rules.drop_last();
        lemma_apply_additions(store, rest);
        assert(additions(rules).drop_last() =~= additions(rest));
        assert(additions(rules).last() == PolicyChangeView::Add(rules.last()));
        assert forall|r: Rule|
            #[trigger] apply_changes(store, additions(rules)).rules.contains(r)
                <==> store.rules.contains(r) || rules.contains(r) by {
            if rules.contains(r) {
                let i = choose|i: int| 0 <= i < rules.len() && rules[i] == r;
                if i < rules.len() - 1 {
                    assert(rest[i] == r);
                }
            }
            if rest.contains(r) {
                let i = choose|i: int| 0 <= i < rest.len() && rest[i] == r;
                assert(rules[i] == r);
            }
            assert(rules[rules.len() - 1] == rules.last());
        }
    }
}

/// Removals leave the links alone and remove exactly the rules of the list.
pub proof fn lemma_apply_removals(store: PolicyStore, rules: Seq<Rule>)
    ensures
        apply_changes(store, removals(rules)).links == store.links,
        forall|r: Rule|
            #[trigger] apply_changes(store, removals(rules)).rules.contains(r)
                <==> store.rules.contains(r) && !rules.contains(r),
    decreases rules.len(),
{
    if rules.len() > 0 {
        let rest = rules.drop_last();
        lemma_apply_removals(store, rest);
        assert(removals(rules).drop_last() =~= removals(rest));
        assert(removals(rules).last() == PolicyChangeView::Remove(rules.last()));
        assert forall|r: Rule|
            #[trigger] apply_changes(store, removals(rules)).rules.contains(r)
                <==> store.rules.contains(r) && !rules.contains(r) by {
            if rules.contains(r) {
                let i = choose|i: int| 0 <= i < rules.len() && rules[i] == r;
                if i < rules.len() - 1 {
                    assert(rest[i] == r);
                }
            }
            if rest.contains(r) {
                let i = choose|i: int| 0 <= i < rest.len() && rest[i] == r;
                assert(rules[i] == r);
            }
            assert(rules[rules.len() - 1] == rules.last());
        }
    }
}

/// A rule of three fields whose permission is well formed is the rule for that permission.
proof fn lemma_rule_of_permission(role: Seq<char>, rule: Rule, p: Seq<char>)
    requires
        rule.len() == 3,
        rule[0] == role,
        rule_permission(rule) == Some(p),
        split_permission(p) is Some,
    ensures
        rule_for(role, p) == Some(rule),
{
    lemma_format_then_split(rule[1], rule[2]);
    assert(rule =~= seq![role, rule[1], rule[2]]);
}

/// The rule for a well-formed permission grants that permission.
proof fn lemma_permission_of_rule(role: Seq<char>, p: Seq<char>)
    requires
        split_permission(p) is Some,
    ensures
        rule_for(role, p) is Some,
        rule_permission(rule_for(role, p)->0) == Some(p),
        (rule_for(role, p)->0).len() == 3,
        (rule_for(role, p)->0)[0] == role,
{
    lemma_split_then_format(p);
}

/// Planning twice writes once: after the changes planned for a role have been applied,
/// planning again for the same wanted permissions yields no change.
pub proof fn lemma_role_update_is_idempotent(
    store: PolicyStore,
    role: Seq<char>,
    current: Seq<Rule>,
    wanted: Option<Seq<Seq<char>>>,
    after: Seq<Rule>,
)
    requires
        lists_subject(current, store, role),
        lists_subject(after, apply_changes(store, update_plan(role, current, wanted)), role),
    ensures
        update_plan(role, after, wanted).len() == 0,
{
    let plan = update_plan(role, current, wanted);
    let end = apply_changes(store, plan);
    match wanted {
        None => {
            lemma_apply_removals(store, current);
            if after.len() > 0 {
                let r = after[0];
                assert(after.contains(r));
                assert(end.rules.contains(r));
                assert(current.contains(r));
            }
        },
        Some(w) => {
            let have = permissions_of(current);
            let adds = rules_absent_from(role, w, have);
            let dels = unwanted_rules(current, w);
            let mid = apply_changes(store, additions(adds));
            lemma_apply_concat(store, additions(adds), removals(dels));
            lemma_apply_additions(store, adds);
            lemma_apply_removals(mid, dels);
            assert forall|r: Rule| #[trigger]
                end.rules.contains(r) <==> (store.rules.contains(r) || adds.contains(r))
                    && !dels.contains(r) by {
                assert(mid.rules.contains(r) <==> store.rules.contains(r) || adds.contains(r));
            }
            let have2 = permissions_of(after);
            let adds2 = rules_absent_from(role, w, have2);
            let dels2 = unwanted_rules(after, w);
            if adds2.len() > 0 {
                let e = adds2[0];
                assert(adds2.contains(e));
                w.lemma_filter_map_contains(absent_rule_fn(role, have2), e);
                let p = choose|p: Seq<char>| #[trigger]
                    w.contains(p) && absent_rule_fn(role, have2)(p) == Some(e);
                assert(!have2.contains(p));
                assert(rule_for(role, p) == Some(e));
                lemma_permission_of_rule(role, p);
                // a wanted rule is not among the removals
                if dels.contains(e) {
                    current.lemma_filter_map_contains(unwanted_rule_fn(w), e);
                    let c = choose|c: Rule| #[trigger]
                        current.contains(c) && unwanted_rule_fn(w)(c) == Some(e);
                    assert(c == e);
                    assert(is_wanted(e, w));
                }
                // a rule that grants the permission was there and stays, or the
                // rule for it is among the additions
                if have.contains(p) {
                    current.lemma_filter_map_contains(rule_permission_fn(), p);
                    let r = choose|r: Rule| #[trigger]
                        current.contains(r) && rule_permission_fn()(r) == Some(p);
                    assert(store.rules.contains(r) && matches_subject(r, role));
                    assert(is_wanted(r, w));
                    if dels.contains(r) {
                        current.lemma_filter_map_contains(unwanted_rule_fn(w), r);
                        let c = choose|c: Rule| #[trigger]
                            current.contains(c) && unwanted_rule_fn(w)(c) == Some(r);
                        assert(c == r);
                    }
                    assert(end.rules.contains(r));
                    assert(after.contains(r));
                    lemma_filter_map_keeps(after, rule_permission_fn(), r);
                } else {
                    lemma_filter_map_keeps(w, absent_rule_fn(role, have), p);
                    assert(adds.contains(e));
                    assert(end.rules.contains(e));
                    assert(matches_subject(e, role));
                    assert(after.contains(e));
                    lemma_filter_map_keeps(after, rule_permission_fn(), e);
                }
                assert(have2.contains(p));
            }
            if dels2.len() > 0 {
                let e = dels2[0];
                assert(dels2.contains(e));
                after.lemma_filter_map_contains(unwanted_rule_fn(w), e);
                let c = choose|c: Rule| #[trigger]
                    after.contains(c) && unwanted_rule_fn(w)(c) == Some(e);
                assert(c == e);
                assert(!is_wanted(e, w));
                assert(end.rules.contains(e) && matches_subject(e, role));
                if adds.contains(e) {
                    w.lemma_filter_map_contains(absent_rule_fn(role, have), e);
                    let p = choose|p: Seq<char>| #[trigger]
                        w.contains(p) && absent_rule_fn(role, have)(p) == Some(e);
                    lemma_permission_of_rule(role, p);
                    assert(is_wanted(e, w));
                } else {
                    assert(store.rules.contains(e));
                    assert(current.contains(e));
                    lemma_filter_map_keeps(current, unwanted_rule_fn(w), e);
                    assert(dels.contains(e));
                }
            }
            assert(additions(adds2).len() == 0);
            assert(removals(dels2).len() == 0);
        },
    }
}

/// After the changes planned for an empty list have been applied, the role has no
/// rule left, whatever its rules held: nothing is listed under it.
pub proof fn lemma_empty_list_leaves_no_rule(
    store: PolicyStore,
    role: Seq<char>,
    current: Seq<Rule>,
    after: Seq<Rule>,
)
    requires
        lists_subject(current, store, role),
        lists_subject(
            after,
            apply_changes(store, update_plan(role, current, Some(Seq::empty()))),
            role,
        ),
    ensures
        after.len() == 0,
        forall|r: Rule|
            !matches_subject(r, role) ==> (#[trigger] apply_changes(
                store,
                update_plan(role, current, Some(Seq::empty())),
            ).rules.contains(r) <==> store.rules.contains(r)),
        apply_changes(store, update_plan(role, current, Some(Seq::empty()))).links == store.links,
{
    lemma_empty_list_removes_all(role, current);
    lemma_apply_removals(store, current);
    if after.len() > 0 {
        let r = after[0];
        assert(after.contains(r));
        assert(current.contains(r));
    }
}

/// Rules that were added and then taken back are gone, and the rest of the state is
/// as it was: a rule is there afterwards exactly where it was there before and is
/// none of them. So where none of them was there before, as for a role that is new,
/// the state is as if nothing had happened.
pub proof fn lemma_additions_taken_back(store: PolicyStore, rules: Seq<Rule>)
    ensures
        apply_changes(apply_changes(store, additions(rules)), removals(rules)).links
            == store.links,
        forall|r: Rule|
            #[trigger] apply_changes(
                apply_changes(store, additions(rules)),
                removals(rules),
            ).rules.contains(r) <==> store.rules.contains(r) && !rules.contains(r),
        (forall|r: Rule| rules.contains(r) ==> !store.rules.contains(r)) ==> apply_changes(
            apply_changes(store, additions(rules)),
            removals(rules),
        ) == store,
{
    let mid = apply_changes(store, additions(rules));
    let end = apply_changes(mid, removals(rules));
    lemma_apply_additions(store, rules);
    lemma_apply_removals(mid, rules);
    assert forall|r: Rule| #[trigger]
        end.rules.contains(r) <==> store.rules.contains(r) && !rules.contains(r) by {
        assert(mid.rules.contains(r) <==> store.rules.contains(r) || rules.contains(r));
    }
    if forall|r: Rule| rules.contains(r) ==> !store.rules.contains(r) {
        assert(end.rules =~= store.rules);
    }
}

/// A rule that was added is listed under its subject, and is listed no more once it
/// has been removed.
pub proof fn lemma_added_rule_is_listed_until_removed(
    store: PolicyStore,
    subject: Seq<char>,
    object: Seq<char>,
    action: Seq<char>,
    listed: Seq<Rule>,
    relisted: Seq<Rule>,
)
    requires
        lists_subject(
            listed,
            apply_change(store, PolicyChangeView::Add(seq![subject, object, action])),
            subject,
        ),
        lists_subject(
            relisted,
            apply_change(
                apply_change(store, PolicyChangeView::Add(seq![subject, object, action])),
                PolicyChangeView::Remove(seq![subject, object, action]),
            ),
            subject,
        ),
    ensures
        listed.contains(seq![subject, object, action]),
        !relisted.contains(seq![subject, object, action]),
{
    let rule = seq![subject, object, action];
    assert(matches_subject(rule, subject));
}

/// A permission that was granted to a role is among the permissions shown for the
/// role, and is among them no more once it has been taken back. The permission is to
/// be well formed: of two rules whose parts hold a colon, one may spell the permission
/// of the other. The role's identifier must not be empty, since an empty subject
/// lists the rules of every role.
pub proof fn lemma_granted_permission_is_shown_until_removed(
    store: PolicyStore,
    role: Seq<char>,
    object: Seq<char>,
    action: Seq<char>,
    listed: Seq<Rule>,
    relisted: Seq<Rule>,
)
    requires
        role.len() > 0,
        split_permission(permission_text(object, action)) is Some,
        lists_subject(
            listed,
            apply_change(store, PolicyChangeView::Add(seq![role, object, action])),
            role,
        ),
        lists_subject(
            relisted,
            apply_change(
                apply_change(store, PolicyChangeView::Add(seq![role, object, action])),
                PolicyChangeView::Remove(seq![role, object, action]),
            ),
            role,
        ),
    ensures
        permissions_of(listed).contains(permission_text(object, action)),
        !permissions_of(relisted).contains(permission_text(object, action)),
{
    let rule = seq![role, object, action];
    let p = permission_text(object, action);
    assert(matches_subject(rule, role));
    assert(listed.contains(rule));
    lemma_filter_map_keeps(listed, rule_permission_fn(), rule);
    if permissions_of(relisted).contains(p) {
        relisted.lemma_filter_map_contains(rule_permission_fn(), p);
        let r = choose|r: Rule| #[trigger]
            relisted.contains(r) && rule_permission_fn()(r) == Some(p);
        assert(matches_subject(r, role));
        lemma_rule_of_permission(role, r, p);
        lemma_format_then_split(object, action);
        assert(r == rule);
    }
}

/// Adding a rule twice is adding it once, and removing a rule that is not there
/// changes nothing.
pub proof fn lemma_changes_have_set_semantics(store: PolicyStore, rule: Rule)
    ensures
        apply_change(apply_change(store, PolicyChangeView::Add(rule)), PolicyChangeView::Add(rule))
            == apply_change(store, PolicyChangeView::Add(rule)),
        !store.rules.contains(rule) ==> apply_change(store, PolicyChangeView::Remove(rule))
            == store,
{
    assert(store.rules.insert(rule).insert(rule) =~= store.rules.insert(rule));
    if !store.rules.contains(rule) {
        assert(store.rules.remove(rule) =~= store.rules);
    }
}

} // verus!
