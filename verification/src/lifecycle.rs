//! The node's lifecycle state machine: transitions run strictly forward from
//! uninitialized to stopped, a fatal event at key load or at the collision
//! guard jumps straight to stopped, and services come up in a fixed order so
//! the listener never enqueues a job before a forwarder exists to drain it.

use vstd::prelude::*;

verus! {

/// The lifecycle states, in the order the node passes through them.
#[derive(Clone, Copy, Debug, PartialEq, Eq, Structural)]
pub enum NodeState {
    Uninitialized,
    KeysLoaded,
    GuardChecked,
    ServicesStarted,
    Running,
    ShuttingDown,
    Stopped,
}

/// What the orchestrator observed; each event either advances the lifecycle
/// or is invalid in the current state.
#[derive(Clone, Copy, Debug, PartialEq, Eq, Structural)]
pub enum NodeEvent {
    /// The key material was read and validated.
    KeysRead,
    /// The key material could not be read: fatal before anything starts.
    KeyLoadFailed,
    /// The collision guard found no node announced at this node's address.
    GuardPassed,
    /// The collision guard found an existing node at this node's address:
    /// fatal, the node must not come online under a colliding identity.
    GuardCollision,
    /// Forwarder, metrics reporter, listener and presence are all up.
    ServicesLaunched,
    /// The startup procedure finished; the node accepts traffic.
    StartupComplete,
    /// The external termination signal arrived.
    TerminationSignal,
    /// The best-effort shutdown finished; in-flight jobs need not drain.
    ShutdownComplete,
}

/// A state's position along the one-directional lifecycle.
pub open spec fn spec_rank(s: NodeState) -> int {
    match s {
        NodeState::Uninitialized => 0,
        NodeState::KeysLoaded => 1,
        NodeState::GuardChecked => 2,
        NodeState::ServicesStarted => 3,
        NodeState::Running => 4,
        NodeState::ShuttingDown => 5,
        NodeState::Stopped => 6,
    }
}

/// The transition relation: which event is accepted in which state, and
/// where it leads. Fatal events (a key-load failure, a guard collision)
/// terminate immediately instead of advancing.
pub open spec fn spec_transition(s: NodeState, e: NodeEvent) -> Option<NodeState> {
    match (s, e) {
        (NodeState::Uninitialized, NodeEvent::KeysRead) => Some(NodeState::KeysLoaded),
        (NodeState::Uninitialized, NodeEvent::KeyLoadFailed) => Some(NodeState::Stopped),
        (NodeState::KeysLoaded, NodeEvent::GuardPassed) => Some(NodeState::GuardChecked),
        (NodeState::KeysLoaded, NodeEvent::GuardCollision) => Some(NodeState::Stopped),
        (NodeState::GuardChecked, NodeEvent::ServicesLaunched) => Some(NodeState::ServicesStarted),
        (NodeState::ServicesStarted, NodeEvent::StartupComplete) => Some(NodeState::Running),
        (NodeState::Running, NodeEvent::TerminationSignal) => Some(NodeState::ShuttingDown),
        (NodeState::ShuttingDown, NodeEvent::ShutdownComplete) => Some(NodeState::Stopped),
        _ => None,
    }
}

/// Advances the lifecycle on one observed event. Returns the next state, or
/// nothing when the event is invalid in the current state — an invalid event
/// never moves the machine.
pub fn advance(state: NodeState, event: NodeEvent) -> (next: Option<NodeState>)
    ensures
        next == spec_transition(state, event),
{
    match (state, event) {
        (NodeState::Uninitialized, NodeEvent::KeysRead) => Some(NodeState::KeysLoaded),
        (NodeState::Uninitialized, NodeEvent::KeyLoadFailed) => Some(NodeState::Stopped),
        (NodeState::KeysLoaded, NodeEvent::GuardPassed) => Some(NodeState::GuardChecked),
        (NodeState::KeysLoaded, NodeEvent::GuardCollision) => Some(NodeState::Stopped),
        (NodeState::GuardChecked, NodeEvent::ServicesLaunched) => Some(NodeState::ServicesStarted),
        (NodeState::ServicesStarted, NodeEvent::StartupComplete) => Some(NodeState::Running),
        (NodeState::Running, NodeEvent::TerminationSignal) => Some(NodeState::ShuttingDown),
        (NodeState::ShuttingDown, NodeEvent::ShutdownComplete) => Some(NodeState::Stopped),
        _ => None,
    }
}

/// The lifecycle is one-directional: every accepted transition moves to a
/// strictly later state, so no state is ever revisited.
pub proof fn lemma_lifecycle_one_directional(s: NodeState, e: NodeEvent)
    requires
        spec_transition(s, e) is Some,
    ensures
        spec_rank(spec_transition(s, e)->Some_0) > spec_rank(s),
{
}

/// The services a startup brings up, used to fix their order.
#[derive(Clone, Copy, Debug, PartialEq, Eq, Structural)]
pub enum ServiceKind {
    Forwarder,
    MetricsReporter,
    Listener,
    PresenceNotifier,
}

/// The order in which startup launches the services: the forwarder before
/// the listener, so a job can never be enqueued with no one to drain it, and
/// presence last, so the node never announces itself before it can serve.
pub fn startup_sequence() -> (order: Vec<ServiceKind>)
    ensures
        order@.len() == 4,
        order@[0] == ServiceKind::Forwarder,
        order@[1] == ServiceKind::MetricsReporter,
        order@[2] == ServiceKind::Listener,
        order@[3] == ServiceKind::PresenceNotifier,
{
    let mut order: Vec<ServiceKind> = Vec::new();
    order.push(ServiceKind::Forwarder);
    order.push(ServiceKind::MetricsReporter);
    order.push(ServiceKind::Listener);
    order.push(ServiceKind::PresenceNotifier);
    order
}

} // verus!
