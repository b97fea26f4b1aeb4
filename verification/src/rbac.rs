//! Role-based access control on top of a `casbin::Enforcer`.
//!
//! The enforcer holds the rules and the links between roles, and judges a request of
//! one subject. A subject is allowed what the enforcer allows to it or to any role
//! that the enforcer finds above it, so rules are meant to grant, not to deny. The module also plans changes to the rules; applying a planned
//! change is the caller's part, since the enforcer persists each change through its
//! adapter.

use vstd::prelude::*;
use vstd::string::*;
use std::sync::Arc;
use casbin::{CoreApi, MgmtApi};
use crate::entities::Role;
use crate::error::AppError;
use crate::hierarchy::{ancestors, enforcer_role, has_role, inherits, lemma_inheritance_is_transitive};
use crate::policy::{
    additions, copy_rule, push_changes, removals, PolicyChange, PolicyChangeView, Rule,
};
use crate::policy_model::matches_subject;
use crate::text::{has_prefix, same_text, starts_with};

verus! {

/// `casbin::Enforcer`: the rules, the role links and the model they are judged by.
#[verifier::external_type_specification]
#[verifier::external_body]
pub struct ExEnforcer(casbin::Enforcer);

/// `casbin::Error`: what the enforcer reports when a check or a change fails.
#[verifier::external_type_specification]
#[verifier::external_body]
pub struct ExCasbinError(casbin::Error);

/// `tokio::sync::RwLock`: the lock that guards the shared enforcer. The library
/// carries the handle and never takes the lock.
#[verifier::external_type_specification]
#[verifier::external_body]
#[verifier::reject_recursive_types(T)]
pub struct ExRwLock<T: ?Sized>(tokio::sync::RwLock<T>);

/// The permission rules (type `p`) that an enforcer holds, in the order in which it
/// lists them.
pub uninterp spec fn enforcer_policies(e: casbin::Enforcer) -> Seq<Rule>;

/// What an enforcer decides on a request of subject, object and action: whether it is
/// allowed, or `None` where the enforcer reports an error.
pub uninterp spec fn enforcer_decision(
    e: casbin::Enforcer,
    subject: Seq<char>,
    object: Seq<char>,
    action: Seq<char>,
) -> Option<bool>;

/// `MgmtApi::get_policy`: a copy of every permission rule, in the enforcer's order.
#[verifier::external_body]
fn all_policies(e: &casbin::Enforcer) -> (rules: Vec<Vec<String>>)
    ensures
        rules.deep_view() == enforcer_policies(*e),
{
    e.get_policy()
}

/// [`matches_subject`] as a function value.
pub open spec fn matches_subject_fn(subject: Seq<char>) -> spec_fn(Rule) -> bool {
    |rule: Rule| matches_subject(rule, subject)
}

/// `CoreApi::enforce` on a request of three texts. The enforcer's answer is a
/// function of its state and the request.
#[verifier::external_body]
fn enforce(e: &casbin::Enforcer, subject: &str, object: &str, action: &str) -> (verdict: Result<
    bool,
    casbin::Error,
>)
    ensures
        match verdict {
            Ok(allowed) => enforcer_decision(*e, subject@, object@, action@) == Some(allowed),
            Err(_) => enforcer_decision(*e, subject@, object@, action@) is None,
        },
{
    e.enforce((subject, object, action))
}

/// The text of a `casbin::Error`, by its `Display`.
#[verifier::external_body]
fn casbin_error_text(err: &casbin::Error) -> (text: String) {
    err.to_string()
}

/// Whether a subject is granted an action on an object: the enforcer allows it to
/// the subject or to a role that the subject inherits from.
pub open spec fn granted(
    e: casbin::Enforcer,
    subject: Seq<char>,
    object: Seq<char>,
    action: Seq<char>,
) -> bool {
    exists|role: Seq<char>| #[trigger]
        inherits(e, subject, role) && enforcer_decision(e, role, object, action)
            == Some(true)
}

/// Whether the enforcer fails to decide for the subject or for a role that the
/// subject inherits from.
pub open spec fn undecided(
    e: casbin::Enforcer,
    subject: Seq<char>,
    object: Seq<char>,
    action: Seq<char>,
) -> bool {
    exists|role: Seq<char>| #[trigger]
        inherits(e, subject, role) && enforcer_decision(e, role, object, action)
            is None
}

/// What a check for a subject answers: what is granted is allowed, whatever else
/// fails; what is not granted is an error where the enforcer failed to decide, and
/// denied where it decided throughout.
pub open spec fn checked(
    e: casbin::Enforcer,
    subject: Seq<char>,
    object: Seq<char>,
    action: Seq<char>,
    access: Result<bool, AppError>,
) -> bool {
    if granted(e, subject, object, action) {
        access == Ok::<bool, AppError>(true)
    } else if undecided(e, subject, object, action) {
        access matches Err(AppError::CasbinError(_))
    } else {
        access == Ok::<bool, AppError>(false)
    }
}

/// The hierarchy is transitive: what is granted to a role is granted to every role
/// that inherits from it, however long the chain of links between them.
pub proof fn lemma_grants_are_inherited(
    e: casbin::Enforcer,
    role: Seq<char>,
    ancestor: Seq<char>,
    object: Seq<char>,
    action: Seq<char>,
)
    requires
        inherits(e, role, ancestor),
        granted(e, ancestor, object, action),
    ensures
        granted(e, role, object, action),
{
    let holder = choose|holder: Seq<char>| #[trigger]
        inherits(e, ancestor, holder) && enforcer_decision(e, holder, object, action) == Some(
            true,
        );
    lemma_inheritance_is_transitive(e, role, ancestor, holder);
}

/// The shared enforcer.
#[derive(Clone)]
pub struct Rbac {
    pub enforcer: Arc<tokio::sync::RwLock<casbin::Enforcer>>,
}

/// The rules that must exist after set-up.
pub open spec fn expected_policies() -> Seq<Rule> {
    seq![
        seq!["user"@, "public"@, "read"@],
        seq!["user"@, "public"@, "write"@],
        seq!["root"@, "user-management"@, "read"@],
        seq!["root"@, "user-management"@, "write"@],
    ]
}

/// Whether a rule grants access to a shared object. Such rules are made at run time
/// and survive set-up.
pub open spec fn is_shared(rule: Rule) -> bool {
    rule.len() > 1 && has_prefix(rule[1], "shared:"@)
}

/// A rule that set-up removes: it is not expected and not shared.
pub open spec fn stale_rule(rule: Rule) -> Option<Rule> {
    if !expected_policies().contains(rule) && !is_shared(rule) {
        Some(rule)
    } else {
        None
    }
}

/// [`stale_rule`] as a function value.
pub open spec fn stale_rule_fn() -> spec_fn(Rule) -> Option<Rule> {
    |rule: Rule| stale_rule(rule)
}

/// A rule that set-up adds: `current` does not hold it.
pub open spec fn missing_rule(current: Seq<Rule>, rule: Rule) -> Option<Rule> {
    if current.contains(rule) {
        None
    } else {
        Some(rule)
    }
}

/// [`missing_rule`] as a function value.
pub open spec fn missing_rule_fn(current: Seq<Rule>) -> spec_fn(Rule) -> Option<Rule> {
    |rule: Rule| missing_rule(current, rule)
}

/// The changes of set-up: remove what is stale, add what is missing of the expected
/// rules, and link `root` to `user` unless that link is there already.
pub open spec fn setup_plan(current: Seq<Rule>, root_inherits_user: bool) -> Seq<PolicyChangeView> {
    removals(current.filter_map(stale_rule_fn())) + additions(
        expected_policies().filter_map(missing_rule_fn(current)),
    ) + (if root_inherits_user {
        Seq::<PolicyChangeView>::empty()
    } else {
        seq![PolicyChangeView::Link { child: "root"@, parent: "user"@ }]
    })
}

/// Builds a rule of three fields.
pub fn rule_of(subject: &str, object: &str, action: &str) -> (rule: Vec<String>)
    ensures
        rule.deep_view() == seq![subject@, object@, action@],
{
    let mut rule: Vec<String> = Vec::new();
    rule.push(subject.to_string());
    rule.push(object.to_string());
    rule.push(action.to_string());
    assert(rule.deep_view() =~= seq![subject@, object@, action@]);
    rule
}

/// The expected rules, in order.
fn expected_rule_list() -> (rules: Vec<Vec<String>>)
    ensures
        rules.deep_view() == expected_policies(),
{
    let mut rules: Vec<Vec<String>> = Vec::new();
    rules.push(rule_of("user", "public", "read"));
    rules.push(rule_of("user", "public", "write"));
    rules.push(rule_of("root", "user-management", "read"));
    rules.push(rule_of("root", "user-management", "write"));
    assert(rules.deep_view() =~= expected_policies());
    rules
}

/// Tells whether `list` holds a rule with the fields of `rule`.
pub fn rule_list_contains(list: &Vec<Vec<String>>, rule: &Vec<String>) -> (found: bool)
    ensures
        found == list.deep_view().contains(rule.deep_view()),
{
    let mut i: usize = 0;
    while i < list.len()
        invariant
            i <= list.len(),
            forall|j: int| 0 <= j < i ==> list.deep_view()[j] != rule.deep_view(),
        decreases list.len() - i,
    {
        if same_rule(&list[i], rule) {
            assert(list.deep_view()[i as int] == rule.deep_view());
            return true;
        }
        i = i + 1;
    }
    false
}

/// Tells whether two rules have the same fields.
pub fn same_rule(a: &Vec<String>, b: &Vec<String>) -> (same: bool)
    ensures
        same == (a.deep_view() == b.deep_view()),
{
    if a.len() != b.len() {
        assert(a.deep_view().len() != b.deep_view().len());
        return false;
    }
    let mut i: usize = 0;
    while i < a.len()
        invariant
            i <= a.len(),
            a.len() == b.len(),
            forall|j: int| 0 <= j < i ==> a@[j]@ == b@[j]@,
        decreases a.len() - i,
    {
        if a[i] != b[i] {
            assert(a.deep_view()[i as int] != b.deep_view()[i as int]);
            return false;
        }
        i = i + 1;
    }
    assert(a.deep_view() =~= b.deep_view());
    true
}

impl Rbac {
    /// Wraps the shared enforcer.
    pub fn new(enforcer: Arc<tokio::sync::RwLock<casbin::Enforcer>>) -> (rbac: Rbac)
        ensures
            rbac.enforcer == enforcer,
    {
        Rbac { enforcer }
    }

    /// The subject on whose behalf access is checked: the first of the roles.
    pub fn subject_of(roles: &Vec<Role>) -> (subject: Option<String>)
        ensures
            match subject {
                Some(id) => roles.len() > 0 && id@ == roles[0].id@,
                None => roles.len() == 0,
            },
    {
        if roles.len() == 0 {
            None
        } else {
            Some(roles[0].id.clone())
        }
    }

    /// Whether the holder of `roles` may perform `action` on `object`. Without a role
    /// nothing is allowed. With roles, the first is the subject: it is allowed what
    /// the enforcer allows to it or to any role that the enforcer finds above it,
    /// however long the chain of links (see [`checked`]).
    pub fn check_access(enforcer: &casbin::Enforcer, roles: &Vec<Role>, object: &str, action: &str) -> (access:
        Result<bool, AppError>)
        ensures
            roles.len() == 0 ==> access == Ok::<bool, AppError>(false),
            roles.len() > 0 ==> checked(*enforcer, roles[0].id@, object@, action@, access),
    {
        let subject = match Self::subject_of(roles) {
            None => {
                return Ok(false);
            },
            Some(subject) => subject,
        };
        let names = ancestors(enforcer, subject.as_str());
        let ghost all = names.deep_view();
        let mut failure: Option<AppError> = None;
        let mut i: usize = 0;
        while i < names.len()
            invariant
                i <= names.len(),
                all == names.deep_view(),
                roles.len() > 0,
                subject@ == roles[0].id@,
                forall|name: Seq<char>|
                    all.contains(name) <==> inherits(*enforcer, subject@, name),
                forall|k: int|
                    0 <= k < i ==> enforcer_decision(*enforcer, #[trigger] all[k], object@, action@)
                        != Some(true),
                failure is Some <==> exists|k: int|
                    0 <= k < i && enforcer_decision(*enforcer, #[trigger] all[k], object@, action@)
                        is None,
                failure matches Some(e) ==> e is CasbinError,
            decreases names.len() - i,
        {
            assert(all[i as int] == names@[i as int]@);
            match enforce(enforcer, names[i].as_str(), object, action) {
                Ok(true) => {
                    proof {
                        assert(all.contains(all[i as int]));
                        assert(inherits(*enforcer, subject@, all[i as int]));
                    }
                    return Ok(true);
                },
                Ok(false) => {},
                Err(err) => {
                    if failure.is_none() {
                        failure = Some(AppError::CasbinError(casbin_error_text(&err)));
                    }
                },
            }
            i = i + 1;
        }
        proof {
            if granted(*enforcer, subject@, object@, action@) {
                let role = choose|role: Seq<char>| #[trigger]
                    inherits(*enforcer, subject@, role) && enforcer_decision(
                        *enforcer,
                        role,
                        object@,
                        action@,
                    ) == Some(true);
                assert(all.contains(role));
                let k = choose|k: int| 0 <= k < all.len() && all[k] == role;
                assert(enforcer_decision(*enforcer, all[k], object@, action@) != Some(true));
            }
            if undecided(*enforcer, subject@, object@, action@) {
                let role = choose|role: Seq<char>| #[trigger]
                    inherits(*enforcer, subject@, role) && enforcer_decision(
                        *enforcer,
                        role,
                        object@,
                        action@,
                    ) is None;
                assert(all.contains(role));
                let k = choose|k: int| 0 <= k < all.len() && all[k] == role;
                assert(enforcer_decision(*enforcer, all[k], object@, action@) is None);
            }
            if failure is Some {
                let k = choose|k: int|
                    0 <= k < names.len() && enforcer_decision(
                        *enforcer,
                        #[trigger] all[k],
                        object@,
                        action@,
                    ) is None;
                assert(all.contains(all[k]));
                assert(inherits(*enforcer, subject@, all[k]));
            }
        }
        match failure {
            Some(e) => Err(e),
            None => Ok(false),
        }
    }

    /// Every permission rule of the enforcer.
    pub fn policies(enforcer: &casbin::Enforcer) -> (rules: Vec<Vec<String>>)
        ensures
            rules.deep_view() == enforcer_policies(*enforcer),
    {
        all_policies(enforcer)
    }

    /// The permission rules listed under `subject`, in the enforcer's order: those
    /// whose first field is the subject. An empty subject stands for any and lists
    /// every rule.
    pub fn policies_of_subject(enforcer: &casbin::Enforcer, subject: &str) -> (listed: Vec<
        Vec<String>,
    >)
        ensures
            listed.deep_view() == enforcer_policies(*enforcer).filter(
                matches_subject_fn(subject@),
            ),
    {
        let all = all_policies(enforcer);
        let any = subject.unicode_len() == 0;
        let ghost every = all.deep_view();
        let ghost f = matches_subject_fn(subject@);
        let mut listed: Vec<Vec<String>> = Vec::new();
        let mut i: usize = 0;
        proof {
            reveal(Seq::filter);
            assert(every.take(0).filter(f) =~= Seq::<Rule>::empty());
            assert(listed.deep_view() =~= Seq::<Rule>::empty());
        }
        while i < all.len()
            invariant
                i <= all.len(),
                every == all.deep_view(),
                every == enforcer_policies(*enforcer),
                f == matches_subject_fn(subject@),
                any == (subject@.len() == 0),
                listed.deep_view() == every.take(i as int).filter(f),
            decreases all.len() - i,
        {
            let rule = &all[i];
            let ghost before = listed.deep_view();
            proof {
                reveal(Seq::filter);
                assert(every.take(i + 1).drop_last() =~= every.take(i as int));
                assert(every.take(i + 1).last() == every[i as int]);
                assert(every[i as int] == rule.deep_view());
                if rule.len() > 0 {
                    assert(rule.deep_view()[0] == rule@[0]@);
                }
            }
            if any || (rule.len() > 0 && same_text(rule[0].as_str(), subject)) {
                listed.push(copy_rule(rule));
                proof {
                    assert(listed.deep_view() =~= before.push(rule.deep_view()));
                }
            }
            i = i + 1;
        }
        assert(every.take(i as int) =~= every);
        listed
    }

    /// Plans set-up: the removal of every rule that is neither expected nor shared,
    /// the addition of every expected rule that is missing, and the link that lets
    /// `root` inherit from `user` where it is missing.
    pub fn setup_roles_and_permissions(enforcer: &casbin::Enforcer) -> (plan: Vec<PolicyChange>)
        ensures
            plan.deep_view() == setup_plan(
                enforcer_policies(*enforcer),
                enforcer_role(*enforcer, "root"@, "user"@),
            ),
    {
        let current = all_policies(enforcer);
        let expected = expected_rule_list();
        let ghost cur = current.deep_view();
        let ghost exp = expected.deep_view();

        let mut stale: Vec<Vec<String>> = Vec::new();
        let mut i: usize = 0;
        assert(cur.take(0).filter_map(stale_rule_fn()) =~= Seq::<Rule>::empty());
        assert(stale.deep_view() =~= Seq::<Rule>::empty());
        while i < current.len()
            invariant
                i <= current.len(),
                cur == current.deep_view(),
                exp == expected.deep_view(),
                exp == expected_policies(),
                stale.deep_view() == cur.take(i as int).filter_map(stale_rule_fn()),
            decreases current.len() - i,
        {
            let rule = &current[i];
            let ghost before = stale.deep_view();
            proof {
                cur.lemma_filter_map_take_succ(stale_rule_fn(), i as int);
                assert(cur[i as int] == rule.deep_view());
            }
            let shared = rule.len() > 1 && starts_with(rule[1].as_str(), "shared:");
            proof {
                if rule.len() > 1 {
                    assert(rule.deep_view()[1] == rule@[1]@);
                }
            }
            if !rule_list_contains(&expected, rule) && !shared {
                let copy = copy_rule(rule);
                stale.push(copy);
                proof {
                    assert(stale.deep_view() =~= before + seq![rule.deep_view()]);
                }
            }
            i = i + 1;
        }
        assert(cur.take(i as int) =~= cur);

        let mut missing: Vec<Vec<String>> = Vec::new();
        let mut k: usize = 0;
        assert(exp.take(0).filter_map(missing_rule_fn(cur)) =~= Seq::<Rule>::empty());
        assert(missing.deep_view() =~= Seq::<Rule>::empty());
        while k < expected.len()
            invariant
                k <= expected.len(),
                cur == current.deep_view(),
                cur == enforcer_policies(*enforcer),
                exp == expected.deep_view(),
                missing.deep_view() == exp.take(k as int).filter_map(missing_rule_fn(cur)),
            decreases expected.len() - k,
        {
            let rule = &expected[k];
            let ghost before = missing.deep_view();
            proof {
                exp.lemma_filter_map_take_succ(missing_rule_fn(cur), k as int);
                assert(exp[k as int] == rule.deep_view());
            }
            if !rule_list_contains(&current, rule) {
                let copy = copy_rule(rule);
                missing.push(copy);
                proof {
                    assert(missing.deep_view() =~= before + seq![rule.deep_view()]);
                }
            }
            k = k + 1;
        }
        assert(exp.take(k as int) =~= exp);

        let mut plan: Vec<PolicyChange> = Vec::new();
        assert(plan.deep_view() =~= Seq::<PolicyChangeView>::empty());
        push_changes(&mut plan, &stale, false);
        push_changes(&mut plan, &missing, true);
        let ghost two = plan.deep_view();
        assert(two =~= removals(stale.deep_view()) + additions(missing.deep_view()));
        if !has_role(enforcer, "root", "user") {
            let link = PolicyChange::Link { child: "root".to_string(), parent: "user".to_string() };
            plan.push(link);
            assert(plan.deep_view() =~= two + seq![
                PolicyChangeView::Link { child: "root"@, parent: "user"@ },
            ]);
        } else {
            assert(plan.deep_view() =~= two + Seq::<PolicyChangeView>::empty());
        }
        plan
    }
}

} // verus!
