//! The listening service's lifecycle: bind, serve, drain, stop.
//!
//! The service starts by binding the listener and creating the two storage
//! roots, serves until an external interrupt is observed, then drains
//! in-flight requests without accepting new connections, and stops. No
//! internal condition ends the serving state; only the interrupt does.

use vstd::prelude::*;

verus! {

/// The lifecycle states of the listening service.
#[derive(Clone, Copy, Debug, PartialEq, Eq, Structural)]
pub enum ServiceState {
    Starting,
    Serving,
    ShuttingDown,
    Stopped,
}

/// The events that move the service between states.
#[derive(Clone, Copy, Debug, PartialEq, Eq, Structural)]
pub enum ServiceEvent {
    /// The listener is bound and the storage roots exist.
    Bound,
    /// The listener could not be bound.
    BindFailed,
    /// The external interrupt signal was observed.
    Interrupt,
    /// Every in-flight request has completed.
    Drained,
}

/// The transition relation: any event a state does not react to leaves it
/// unchanged.
pub open spec fn lifecycle_next(s: ServiceState, e: ServiceEvent) -> ServiceState {
    match (s, e) {
        (ServiceState::Starting, ServiceEvent::Bound) => ServiceState::Serving,
        (ServiceState::Starting, ServiceEvent::BindFailed) => ServiceState::Stopped,
        (ServiceState::Serving, ServiceEvent::Interrupt) => ServiceState::ShuttingDown,
        (ServiceState::ShuttingDown, ServiceEvent::Drained) => ServiceState::Stopped,
        (_, _) => s,
    }
}

/// Advances the lifecycle by one observed event.
pub fn lifecycle_step(s: ServiceState, e: ServiceEvent) -> (r: ServiceState)
    ensures
        r == lifecycle_next(s, e),
{
    match (s, e) {
        (ServiceState::Starting, ServiceEvent::Bound) => ServiceState::Serving,
        (ServiceState::Starting, ServiceEvent::BindFailed) => ServiceState::Stopped,
        (ServiceState::Serving, ServiceEvent::Interrupt) => ServiceState::ShuttingDown,
        (ServiceState::ShuttingDown, ServiceEvent::Drained) => ServiceState::Stopped,
        (_, _) => s,
    }
}

/// New connections are accepted exactly while the service is serving.
pub fn accepts_connections(s: ServiceState) -> (r: bool)
    ensures
        r == (s is Serving),
{
    matches!(s, ServiceState::Serving)
}

/// Serving ends only on the interrupt: every other event leaves the service
/// serving, and the interrupt drains it rather than stopping it outright.
pub proof fn lemma_serving_until_interrupt(e: ServiceEvent)
    ensures
        e != ServiceEvent::Interrupt ==> lifecycle_next(ServiceState::Serving, e)
            == ServiceState::Serving,
        lifecycle_next(ServiceState::Serving, ServiceEvent::Interrupt)
            == ServiceState::ShuttingDown,
{
}

/// Once stopped, the service stays stopped.
pub proof fn lemma_stopped_is_final(e: ServiceEvent)
    ensures
        lifecycle_next(ServiceState::Stopped, e) == ServiceState::Stopped,
{
}

/// A draining service never returns to serving: after the interrupt, no
/// event makes the service accept new connections again.
pub proof fn lemma_no_restart(e: ServiceEvent)
    ensures
        lifecycle_next(ServiceState::ShuttingDown, e) != ServiceState::Serving,
{
}

} // verus!
