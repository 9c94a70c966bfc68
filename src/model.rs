//! The parts of a Pod and of a Namespace that the admission rule reads.
use vstd::prelude::*;

verus! {

/// What the rule reads of a Pod's `spec`.
#[derive(Clone, Debug)]
pub struct PodSpec {
    /// `spec.restartPolicy`: `Always`, `OnFailure` or `Never` when set.
    pub restart_policy: Option<String>,
    /// `spec.activeDeadlineSeconds`.
    pub active_deadline_seconds: Option<i64>,
}

/// What the rule reads of a Pod.
#[derive(Clone, Debug)]
pub struct Pod {
    /// `metadata.namespace`.
    pub namespace: Option<String>,
    /// `spec`.
    pub spec: Option<PodSpec>,
}

/// One entry of `metadata.annotations`.
#[derive(Clone, Debug)]
pub struct Annotation {
    pub key: String,
    pub value: String,
}

/// What the rule reads of a Namespace.
#[derive(Clone, Debug)]
pub struct Namespace {
    /// `metadata.name`.
    pub name: Option<String>,
    /// `metadata.annotations`, one entry per key.
    pub annotations: Option<Vec<Annotation>>,
}

/// `pod` with `spec.activeDeadlineSeconds` set to `v` and every other field
/// as it was; a Pod without a spec is left as it is.
pub open spec fn with_deadline_spec(pod: Pod, v: i64) -> Pod {
    match pod.spec {
        Some(s) => Pod {
            namespace: pod.namespace,
            spec: Some(PodSpec { restart_policy: s.restart_policy, active_deadline_seconds: Some(v) }),
        },
        None => pod,
    }
}

impl Pod {
    /// This Pod with its active deadline set to `v`.
    pub fn with_deadline(self, v: i64) -> (r: Pod)
        ensures
            r == with_deadline_spec(self, v),
    {
        let Pod { namespace, spec } = self;
        match spec {
            Some(s) => Pod {
                namespace,
                spec: Some(PodSpec { restart_policy: s.restart_policy, active_deadline_seconds: Some(v) }),
            },
            None => Pod { namespace, spec: None },
        }
    }
}

} // verus!
