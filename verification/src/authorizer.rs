//! The authorizer: combines per-policy match results into one decision,
//! applying deny-overrides-allow and implicit default deny.

use vstd::prelude::*;

use crate::action::ScopedAction;
use crate::document::{action_doc_matches, resource_doc_matches, ActionDocument, ResourceDocument};
use crate::models::{Effect, Policy};
use crate::resource::ScopedResource;

verus! {

/// Some document in `docs` matches the requested action `sa`.
pub open spec fn any_action_doc_matches(docs: Seq<ActionDocument>, sa: ScopedAction) -> bool {
    exists|i: int| 0 <= i < docs.len() && action_doc_matches(docs[i], sa)
}

/// Some document in `docs` matches some requested resource in `srs`.
pub open spec fn any_resource_doc_matches(
    docs: Seq<ResourceDocument>,
    srs: Seq<ScopedResource>,
) -> bool {
    exists|i: int, j: int|
        0 <= i < docs.len() && 0 <= j < srs.len() && resource_doc_matches(docs[i], srs[j])
}

/// The policy `p` is a candidate for the request: one of its action
/// documents matches the requested action, and one of its resource
/// documents matches one of the requested resources.
pub open spec fn is_candidate(p: Policy, sa: ScopedAction, srs: Seq<ScopedResource>) -> bool {
    any_action_doc_matches(p.actions@, sa) && any_resource_doc_matches(p.resources@, srs)
}

/// The policy `p` is a candidate whose effect is `Deny`.
pub open spec fn is_denying_candidate(p: Policy, sa: ScopedAction, srs: Seq<ScopedResource>) -> bool {
    is_candidate(p, sa, srs) && p.effect is Deny
}

/// The policy `p` is a candidate whose effect is `Allow`.
pub open spec fn is_allowing_candidate(p: Policy, sa: ScopedAction, srs: Seq<ScopedResource>) -> bool {
    is_candidate(p, sa, srs) && p.effect is Allow
}

/// The denying-candidate test on a fixed request, as a predicate on one
/// policy.
pub open spec fn deny_pred(sa: ScopedAction, srs: Seq<ScopedResource>) -> spec_fn(Policy) -> bool {
    |p: Policy| is_denying_candidate(p, sa, srs)
}

/// The allowing-candidate test on a fixed request, as a predicate on one
/// policy.
pub open spec fn allow_pred(sa: ScopedAction, srs: Seq<ScopedResource>) -> spec_fn(Policy) -> bool {
    |p: Policy| is_allowing_candidate(p, sa, srs)
}

/// The denying candidates among `ps`, in input order.
pub open spec fn denying_candidates(
    ps: Seq<Policy>,
    sa: ScopedAction,
    srs: Seq<ScopedResource>,
) -> Seq<Policy> {
    ps.filter(deny_pred(sa, srs))
}

/// The allowing candidates among `ps`, in input order.
pub open spec fn allowing_candidates(
    ps: Seq<Policy>,
    sa: ScopedAction,
    srs: Seq<ScopedResource>,
) -> Seq<Policy> {
    ps.filter(allow_pred(sa, srs))
}

/// The effect of the decision over `ps`: `Deny` when any denying candidate
/// exists, else `Allow` when any allowing candidate exists, else the
/// implicit default `Deny`.
pub open spec fn decision_effect(
    ps: Seq<Policy>,
    sa: ScopedAction,
    srs: Seq<ScopedResource>,
) -> Effect {
    if denying_candidates(ps, sa, srs).len() > 0 {
        Effect::Deny
    } else if allowing_candidates(ps, sa, srs).len() > 0 {
        Effect::Allow
    } else {
        Effect::Deny
    }
}

/// The policies returned with the decision over `ps`: all denying
/// candidates when any exists, else all allowing candidates (which is the
/// empty sequence when there is no candidate at all).
pub open spec fn decision_policies(
    ps: Seq<Policy>,
    sa: ScopedAction,
    srs: Seq<ScopedResource>,
) -> Seq<Policy> {
    if denying_candidates(ps, sa, srs).len() > 0 {
        denying_candidates(ps, sa, srs)
    } else {
        allowing_candidates(ps, sa, srs)
    }
}

/// The policies that a sequence of references points to.
pub open spec fn deref_all(ps: Seq<&Policy>) -> Seq<Policy> {
    ps.map_values(|p: &Policy| *p)
}

/// Appending one element to a filtered sequence: the element stays exactly
/// when it satisfies the predicate.
proof fn lemma_filter_push<A>(s: Seq<A>, pred: spec_fn(A) -> bool, x: A)
    ensures
        pred(x) ==> s.push(x).filter(pred) == s.filter(pred).push(x),
        !pred(x) ==> s.push(x).filter(pred) == s.filter(pred),
{
    reveal(Seq::filter);
    assert(s.push(x).drop_last() =~= s);
}

/// A sequence none of whose elements satisfies the predicate filters to the
/// empty sequence.
proof fn lemma_filter_none<A>(s: Seq<A>, pred: spec_fn(A) -> bool)
    requires
        forall|i: int| 0 <= i < s.len() ==> !pred(#[trigger] s[i]),
    ensures
        s.filter(pred).len() == 0,
    decreases s.len(),
{
    reveal(Seq::filter);
    if s.len() > 0 {
        assert(!pred(s.last()));
        lemma_filter_none(s.drop_last(), pred);
    }
}

/// Decides whether any document in `docs` matches the requested action.
fn action_match(docs: &Vec<ActionDocument>, scoped_action: &ScopedAction) -> (r: bool)
    ensures
        r == any_action_doc_matches(docs@, *scoped_action),
{
    let n = docs.len();
    let mut k: usize = 0;
    while k < n
        invariant
            n == docs@.len(),
            k <= n,
            forall|i: int| 0 <= i < k ==> !action_doc_matches(docs@[i], *scoped_action),
        decreases n - k,
    {
        if docs[k].is_match(scoped_action) {
            return true;
        }
        k += 1;
    }
    false
}

/// Decides whether any document in `docs` matches any requested resource.
fn resource_match(docs: &Vec<ResourceDocument>, scoped_resources: &[ScopedResource]) -> (r: bool)
    ensures
        r == any_resource_doc_matches(docs@, scoped_resources@),
{
    let n = docs.len();
    let m = scoped_resources.len();
    let mut k: usize = 0;
    while k < n
        invariant
            n == docs@.len(),
            m == scoped_resources@.len(),
            k <= n,
            forall|i: int, j: int|
                0 <= i < k && 0 <= j < m ==> !resource_doc_matches(docs@[i], scoped_resources@[j]),
        decreases n - k,
    {
        let mut l: usize = 0;
        while l < m
            invariant
                n == docs@.len(),
                m == scoped_resources@.len(),
                k < n,
                l <= m,
                forall|j: int| 0 <= j < l ==> !resource_doc_matches(
                    docs@[k as int],
                    scoped_resources@[j],
                ),
            decreases m - l,
        {
            if docs[k].is_match(&scoped_resources[l]) {
                return true;
            }
            l += 1;
        }
        k += 1;
    }
    false
}

/// Decides whether the policy is a candidate for the request.
fn policy_is_candidate(
    policy: &Policy,
    scoped_action: &ScopedAction,
    scoped_resources: &[ScopedResource],
) -> (r: bool)
    ensures
        r == is_candidate(*policy, *scoped_action, scoped_resources@),
{
    let matches_action = action_match(&policy.actions, scoped_action);
    let matches_resource = resource_match(&policy.resources, scoped_resources);
    matches_action && matches_resource
}

/// Decides the request over the whole policy set: every policy is
/// evaluated, denying candidates override allowing candidates, and with no
/// candidate at all the decision is the implicit default deny with no
/// policies returned. The returned policies keep the input order.
pub fn is_authorized<'a>(
    policies: &'a [Policy],
    scoped_action: &ScopedAction,
    scoped_resources: &[ScopedResource],
) -> (r: (Effect, Vec<&'a Policy>))
    ensures
        r.0 == decision_effect(policies@, *scoped_action, scoped_resources@),
        deref_all(r.1@) == decision_policies(policies@, *scoped_action, scoped_resources@),
{
    let ghost dp = deny_pred(*scoped_action, scoped_resources@);
    let ghost ap = allow_pred(*scoped_action, scoped_resources@);
    let mut denied: Vec<&'a Policy> = Vec::new();
    let mut allowed: Vec<&'a Policy> = Vec::new();
    let n = policies.len();
    let mut k: usize = 0;

    while k < n
        invariant
            n == policies@.len(),
            k <= n,
            dp == deny_pred(*scoped_action, scoped_resources@),
            ap == allow_pred(*scoped_action, scoped_resources@),
            deref_all(denied@) == policies@.subrange(0, k as int).filter(dp),
            deref_all(allowed@) == policies@.subrange(0, k as int).filter(ap),
        decreases n - k,
    {
        let ghost prefix = policies@.subrange(0, k as int);
        let policy = &policies[k];

        if policy_is_candidate(policy, scoped_action, scoped_resources) {
            match policy.effect {
                Effect::Deny => denied.push(policy),
                Effect::Allow => allowed.push(policy),
            }
        }

        proof {
            assert(policies@.subrange(0, k as int + 1) =~= prefix.push(policies@[k as int]));
            lemma_filter_push(prefix, dp, policies@[k as int]);
            assert(deref_all(denied@) =~= policies@.subrange(0, k as int + 1).filter(dp));
            lemma_filter_push(prefix, ap, policies@[k as int]);
            assert(deref_all(allowed@) =~= policies@.subrange(0, k as int + 1).filter(ap));
        }

        k += 1;
    }

    proof {
        assert(policies@.subrange(0, n as int) =~= policies@);
    }

    if denied.len() > 0 {
        (Effect::Deny, denied)
    } else if allowed.len() > 0 {
        (Effect::Allow, allowed)
    } else {
        (Effect::Deny, Vec::new())
    }
}

/// Deny overrides allow: whenever at least one denying candidate exists,
/// the decision is `Deny`, and the returned policies are exactly the
/// denying candidates — allowing candidates are never among them.
pub proof fn lemma_deny_overrides(ps: Seq<Policy>, sa: ScopedAction, srs: Seq<ScopedResource>)
    requires
        exists|i: int| 0 <= i < ps.len() && is_denying_candidate(#[trigger] ps[i], sa, srs),
    ensures
        decision_effect(ps, sa, srs) is Deny,
        decision_policies(ps, sa, srs) == denying_candidates(ps, sa, srs),
        forall|k: int|
            0 <= k < decision_policies(ps, sa, srs).len() ==> is_denying_candidate(
                #[trigger] decision_policies(ps, sa, srs)[k],
                sa,
                srs,
            ),
{
    let i = choose|i: int| 0 <= i < ps.len() && is_denying_candidate(#[trigger] ps[i], sa, srs);
    ps.lemma_filter_contains(deny_pred(sa, srs), i);
    assert forall|k: int| 0 <= k < decision_policies(ps, sa, srs).len() implies is_denying_candidate(
        #[trigger] decision_policies(ps, sa, srs)[k],
        sa,
        srs,
    ) by {
        ps.lemma_filter_pred(deny_pred(sa, srs), k);
    }
}

/// Default deny: with no candidate policy at all — in particular with an
/// empty policy list — the decision is `Deny` and no policies are
/// returned.
pub proof fn lemma_default_deny(ps: Seq<Policy>, sa: ScopedAction, srs: Seq<ScopedResource>)
    requires
        forall|i: int| 0 <= i < ps.len() ==> !is_candidate(#[trigger] ps[i], sa, srs),
    ensures
        decision_effect(ps, sa, srs) is Deny,
        decision_policies(ps, sa, srs).len() == 0,
{
    lemma_filter_none(ps, deny_pred(sa, srs));
    lemma_filter_none(ps, allow_pred(sa, srs));
}

} // verus!
