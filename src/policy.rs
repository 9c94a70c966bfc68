//! The admission decision.
use vstd::prelude::*;

use crate::model::{with_deadline_spec, Namespace, Pod};
use crate::namespace::{deadline_from_namespace, namespace_override};
use crate::settings::Settings;

verus! {

/// Why a Pod is turned away.
#[derive(Clone, Copy, Debug, PartialEq, Eq, Structural)]
pub enum RejectReason {
    /// The Pod has no `spec`.
    NoSpec,
    /// The Pod needs a deadline but names no namespace to look it up in.
    NoNamespace,
}

/// The text shown to the user for `r`.
pub open spec fn reason_text(r: RejectReason) -> Seq<char> {
    match r {
        RejectReason::NoSpec => "Pod has no spec"@,
        RejectReason::NoNamespace => "Pod has no namespace"@,
    }
}

impl RejectReason {
    /// The text shown to the user.
    pub fn message(&self) -> (r: String)
        ensures
            r@ == reason_text(*self),
    {
        match self {
            RejectReason::NoSpec => "Pod has no spec".to_owned(),
            RejectReason::NoNamespace => "Pod has no namespace".to_owned(),
        }
    }
}

/// The decision on one object.
#[derive(Clone, Debug)]
pub enum Outcome {
    /// Let the object through unchanged.
    Accept,
    /// Turn the object away.
    Reject(RejectReason),
    /// Let the object through as this Pod.
    Mutate(Pod),
}

/// A restart policy of `OnFailure` or `Never`.
pub open spec fn is_run_once(policy: Option<String>) -> bool {
    policy matches Some(p) && (p@ == "OnFailure"@ || p@ == "Never"@)
}

/// A deadline that is absent or zero.
pub open spec fn deadline_unset(d: Option<i64>) -> bool {
    d is None || d == Some(0i64)
}

/// A Pod that runs once and has no deadline yet.
pub open spec fn wants_deadline(pod: Pod) -> bool {
    pod.spec matches Some(s) && is_run_once(s.restart_policy) && deadline_unset(
        s.active_deadline_seconds,
    )
}

/// The deadline for a Pod in the namespace called `name`: the namespace's
/// override where it has one, else `default`.
pub open spec fn chosen_deadline(nss: Seq<Namespace>, name: Seq<char>, default: i64) -> i64 {
    match namespace_override(nss, name) {
        Some(v) => v,
        None => default,
    }
}

/// The decision on `object` (`None`: not a Pod) under the default deadline
/// `default`, with `nss` the Namespaces of the cluster.
pub open spec fn outcome(object: Option<Pod>, default: i64, nss: Seq<Namespace>) -> Outcome {
    match object {
        None => Outcome::Accept,
        Some(pod) => if pod.spec is None {
            Outcome::Reject(RejectReason::NoSpec)
        } else if !wants_deadline(pod) {
            Outcome::Accept
        } else {
            match pod.namespace {
                Some(ns) => Outcome::Mutate(
                    with_deadline_spec(pod, chosen_deadline(nss, ns@, default)),
                ),
                None => Outcome::Reject(RejectReason::NoNamespace),
            }
        },
    }
}

/// Whether the decision on `object` depends on the cluster's Namespaces.
pub open spec fn looks_up_namespace(object: Option<Pod>) -> bool {
    object matches Some(pod) && wants_deadline(pod) && pod.namespace is Some
}

fn run_once(policy: &Option<String>) -> (r: bool)
    ensures
        r == is_run_once(*policy),
{
    match policy {
        Some(p) => {
            let on_failure = "OnFailure".to_owned();
            let never = "Never".to_owned();
            *p == on_failure || *p == never
        },
        None => false,
    }
}

fn needs_deadline(pod: &Pod) -> (r: bool)
    ensures
        r == wants_deadline(*pod),
{
    match &pod.spec {
        Some(s) => run_once(&s.restart_policy) && match s.active_deadline_seconds {
            Some(d) => d == 0,
            None => true,
        },
        None => false,
    }
}

/// Whether deciding on `object` needs the list of the cluster's Namespaces;
/// where it does not, any list, an empty one too, gives the same decision.
pub fn needs_namespaces(object: &Option<Pod>) -> (r: bool)
    ensures
        r == looks_up_namespace(*object),
{
    match object {
        Some(pod) => needs_deadline(pod) && pod.namespace.is_some(),
        None => false,
    }
}

/// Decides on `object`, which is `None` where the incoming object is not a
/// Pod. A run-once Pod without a deadline gets one, from its namespace's
/// override annotation or else from `settings`; a Pod without a spec, or one
/// that needs a deadline but names no namespace, is rejected; anything else
/// is accepted unchanged.
pub fn validate(object: Option<Pod>, settings: &Settings, namespaces: &Vec<Namespace>) -> (r:
    Outcome)
    ensures
        r == outcome(object, settings.default_active_deadline, namespaces@),
{
    match object {
        None => Outcome::Accept,
        Some(pod) => {
            if pod.spec.is_none() {
                return Outcome::Reject(RejectReason::NoSpec);
            }
            if !needs_deadline(&pod) {
                return Outcome::Accept;
            }
            let deadline = match &pod.namespace {
                Some(ns) => match deadline_from_namespace(namespaces, ns) {
                    Some(v) => v,
                    None => settings.default_active_deadline,
                },
                None => {
                    return Outcome::Reject(RejectReason::NoNamespace);
                },
            };
            Outcome::Mutate(pod.with_deadline(deadline))
        },
    }
}

} // verus!
