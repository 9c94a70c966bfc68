//! What the decision guarantees, stated over `outcome`.
use vstd::prelude::*;

use crate::model::{Namespace, Pod};
use crate::namespace::namespace_override;
use crate::policy::{deadline_unset, is_run_once, looks_up_namespace, outcome, Outcome, RejectReason};

verus! {

/// `r` lets `pod` through with its deadline set to `v`, its namespace and its
/// restart policy as they were.
pub open spec fn sets_deadline(r: Outcome, pod: Pod, v: i64) -> bool {
    &&& r matches Outcome::Mutate(p)
    &&& p.namespace == pod.namespace
    &&& p.spec matches Some(t)
    &&& pod.spec matches Some(s)
    &&& t.restart_policy == s.restart_policy
    &&& t.active_deadline_seconds == Some(v)
}

/// An object that is not a Pod is accepted unchanged.
pub proof fn lemma_not_a_pod_is_accepted(default: i64, nss: Seq<Namespace>)
    ensures
        outcome(None, default, nss) == Outcome::Accept,
{
}

/// A Pod without a spec is rejected.
pub proof fn lemma_no_spec_is_rejected(pod: Pod, default: i64, nss: Seq<Namespace>)
    requires
        pod.spec is None,
    ensures
        outcome(Some(pod), default, nss) == Outcome::Reject(RejectReason::NoSpec),
{
}

/// A Pod with restart policy `Always` is accepted unchanged, whatever its
/// deadline.
pub proof fn lemma_always_is_accepted(pod: Pod, default: i64, nss: Seq<Namespace>)
    requires
        pod.spec matches Some(s) && s.restart_policy matches Some(p) && p@ == "Always"@,
    ensures
        outcome(Some(pod), default, nss) == Outcome::Accept,
{
    reveal_strlit("Always");
    reveal_strlit("OnFailure");
    reveal_strlit("Never");
    assert("Always"@.len() != "OnFailure"@.len());
    assert("Always"@[0] != "Never"@[0]);
}

/// A run-once Pod with a non-zero deadline is accepted unchanged.
pub proof fn lemma_explicit_deadline_is_kept(pod: Pod, default: i64, nss: Seq<Namespace>)
    requires
        pod.spec matches Some(s) && is_run_once(s.restart_policy) && (
        s.active_deadline_seconds matches Some(d) && d != 0),
    ensures
        outcome(Some(pod), default, nss) == Outcome::Accept,
{
}

/// A run-once Pod without a deadline, in a namespace that sets no override,
/// gets the configured default; its namespace and restart policy stay as
/// they were.
pub proof fn lemma_default_deadline(pod: Pod, default: i64, nss: Seq<Namespace>)
    requires
        pod.spec matches Some(s) && is_run_once(s.restart_policy) && deadline_unset(
            s.active_deadline_seconds,
        ),
        pod.namespace matches Some(ns) && namespace_override(nss, ns@) is None,
    ensures
        sets_deadline(outcome(Some(pod), default, nss), pod, default),
{
}

/// A run-once Pod without a deadline, in a namespace whose override is `v`,
/// gets `v` in place of the configured default; its namespace and restart
/// policy stay as they were.
pub proof fn lemma_namespace_override(pod: Pod, default: i64, nss: Seq<Namespace>, v: i64)
    requires
        pod.spec matches Some(s) && is_run_once(s.restart_policy) && deadline_unset(
            s.active_deadline_seconds,
        ),
        pod.namespace matches Some(ns) && namespace_override(nss, ns@) == Some(v),
    ensures
        sets_deadline(outcome(Some(pod), default, nss), pod, v),
{
}

/// Where no namespace lookup is needed, the Namespaces do not matter.
pub proof fn lemma_namespaces_unused(
    object: Option<Pod>,
    default: i64,
    nss1: Seq<Namespace>,
    nss2: Seq<Namespace>,
)
    requires
        !looks_up_namespace(object),
    ensures
        outcome(object, default, nss1) == outcome(object, default, nss2),
{
}

} // verus!
