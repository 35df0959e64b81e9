//! Component health and the aggregation of component health into the
//! overall system status.

use vstd::prelude::*;

verus! {

/// Health of a component or of the whole system.
#[derive(Debug, Clone, PartialEq, Eq)]
pub enum HealthStatus {
    Healthy,
    Degraded(String),
    Unhealthy(String),
}

/// Health of a single component.
#[derive(Debug, Clone)]
pub struct ComponentHealth {
    /// Component name (e.g. "database").
    pub name: String,
    /// The component's status.
    pub status: HealthStatus,
    /// Measured latency, if any.
    pub latency_ms: Option<u64>,
}

/// The overall status of a set of components: healthy when every component
/// is healthy; degraded when every component is healthy or degraded;
/// otherwise unhealthy.
pub open spec fn overall_kind(components: Seq<ComponentHealth>) -> HealthStatus {
    if forall|i: int| 0 <= i < components.len() ==> (#[trigger] components[i]).status is Healthy {
        HealthStatus::Healthy
    } else if forall|i: int|
        0 <= i < components.len() ==> !((#[trigger] components[i]).status is Unhealthy) {
        HealthStatus::Degraded(arbitrary())
    } else {
        HealthStatus::Unhealthy(arbitrary())
    }
}

/// Aggregate component health into the overall system status.
pub fn overall_status(components: &Vec<ComponentHealth>) -> (r: HealthStatus)
    ensures
        overall_kind(components@) is Healthy ==> r is Healthy,
        overall_kind(components@) is Degraded ==> (r matches HealthStatus::Degraded(m)
            && m@ == "one or more components degraded"@),
        overall_kind(components@) is Unhealthy ==> (r matches HealthStatus::Unhealthy(m)
            && m@ == "one or more components unhealthy"@),
        (exists|i: int| 0 <= i < components@.len() && (#[trigger] components@[i]).status is Unhealthy)
            ==> r is Unhealthy,
        r is Degraded ==> forall|i: int| 0 <= i < components@.len() ==> !((#[trigger] components@[i]).status is Unhealthy),
        r is Healthy <==> forall|i: int| 0 <= i < components@.len() ==> (#[trigger] components@[i]).status is Healthy,
{
    let mut all_healthy = true;
    let mut none_unhealthy = true;
    let mut i: usize = 0;
    while i < components.len()
        invariant
            i <= components@.len(),
            all_healthy == (forall|j: int| 0 <= j < i ==> (#[trigger] components@[j]).status is Healthy),
            none_unhealthy == (forall|j: int| 0 <= j < i ==> !((#[trigger] components@[j]).status is Unhealthy)),
        decreases components.len() - i,
    {
        match &components[i].status {
            HealthStatus::Healthy => {},
            HealthStatus::Degraded(_) => {
                all_healthy = false;
            },
            HealthStatus::Unhealthy(_) => {
                all_healthy = false;
                none_unhealthy = false;
            },
        }
        i = i + 1;
    }
    if all_healthy {
        HealthStatus::Healthy
    } else if none_unhealthy {
        HealthStatus::Degraded(String::from_str("one or more components degraded"))
    } else {
        HealthStatus::Unhealthy(String::from_str("one or more components unhealthy"))
    }
}

/// The overall status is the worst component status: any unhealthy
/// component makes the whole unhealthy; the whole is degraded only when no
/// component is unhealthy and some component is degraded; and it is healthy
/// exactly when every component is.
pub proof fn lemma_overall_is_worst(components: Seq<ComponentHealth>)
    ensures
        (exists|i: int| 0 <= i < components.len() && (#[trigger] components[i]).status is Unhealthy)
            ==> overall_kind(components) is Unhealthy,
        overall_kind(components) is Degraded ==> (forall|i: int|
            0 <= i < components.len() ==> !((#[trigger] components[i]).status is Unhealthy))
            && (exists|i: int| 0 <= i < components.len() && (#[trigger] components[i]).status is Degraded),
        overall_kind(components) is Healthy <==> (forall|i: int|
            0 <= i < components.len() ==> (#[trigger] components[i]).status is Healthy),
{
    if overall_kind(components) is Degraded {
        let i = choose|i: int| 0 <= i < components.len() && !((#[trigger] components[i]).status is Healthy);
        assert(components[i].status is Degraded);
    }
}

} // verus!
