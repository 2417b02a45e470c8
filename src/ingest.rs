//! The broker ingestion loop as a state machine: connect, pull deliveries,
//! acknowledge each one, hand it on, and reconnect after any failure.

use vstd::prelude::*;

verus! {

/// Where the ingestion loop stands.
#[derive(Debug, Clone, Copy, PartialEq, Eq)]
pub enum Phase {
    /// No broker session; the next step is to connect.
    Disconnected,
    /// Subscribed; waiting for the next delivery.
    Consuming,
    /// A delivery has arrived and is being acknowledged.
    Acking,
}

/// What the outside world reports back after an action.
#[derive(Debug, Clone, Copy, PartialEq, Eq)]
pub enum BrokerSignal {
    /// Connection, channel, exchange, queue, binding and consumer are set up.
    Connected,
    /// Some step of setting up the subscription failed.
    ConnectFailed,
    /// The consumer yielded a delivery.
    Delivery,
    /// The consumer stream ended or yielded an error.
    StreamEnded,
    /// The delivery was acknowledged.
    Acked,
    /// Acknowledging the delivery failed.
    AckFailed,
}

/// What the loop asks to be done next.
#[derive(Debug, Clone, Copy, PartialEq, Eq)]
pub enum BrokerAction {
    /// Connect to the broker and provision the subscription.
    Connect,
    /// Wait for the next delivery.
    NextDelivery,
    /// Acknowledge the delivery just received.
    Ack,
    /// Decode and broadcast the acknowledged delivery, then wait for the next.
    Process,
}

/// Whether a signal reports a failure of the broker session.
pub open spec fn is_failure(s: BrokerSignal) -> bool {
    s is ConnectFailed || s is StreamEnded || s is AckFailed
}

/// The transition table of the ingestion loop. A signal that does not
/// belong to the phase ends the session as a failure does.
pub open spec fn step_spec(p: Phase, s: BrokerSignal) -> (Phase, BrokerAction) {
    match (p, s) {
        (Phase::Disconnected, BrokerSignal::Connected) => (Phase::Consuming, BrokerAction::NextDelivery),
        (Phase::Consuming, BrokerSignal::Delivery) => (Phase::Acking, BrokerAction::Ack),
        (Phase::Acking, BrokerSignal::Acked) => (Phase::Consuming, BrokerAction::Process),
        _ => (Phase::Disconnected, BrokerAction::Connect),
    }
}

/// The first step of the loop: connect.
pub fn start() -> (r: (Phase, BrokerAction))
    ensures
        r == (Phase::Disconnected, BrokerAction::Connect),
{
    (Phase::Disconnected, BrokerAction::Connect)
}

/// The next phase and action after `signal` arrives in `phase`.
pub fn step(phase: Phase, signal: BrokerSignal) -> (r: (Phase, BrokerAction))
    ensures
        r == step_spec(phase, signal),
{
    match (phase, signal) {
        (Phase::Disconnected, BrokerSignal::Connected) => (Phase::Consuming, BrokerAction::NextDelivery),
        (Phase::Consuming, BrokerSignal::Delivery) => (Phase::Acking, BrokerAction::Ack),
        (Phase::Acking, BrokerSignal::Acked) => (Phase::Consuming, BrokerAction::Process),
        _ => (Phase::Disconnected, BrokerAction::Connect),
    }
}

/// Any failure, in any phase, leads straight back to connecting: the loop
/// retries at once and never stops.
pub proof fn lemma_failure_reconnects(p: Phase, s: BrokerSignal)
    requires
        is_failure(s),
    ensures
        step_spec(p, s) == (Phase::Disconnected, BrokerAction::Connect),
{
}

/// A delivery is acknowledged before it is processed: processing is asked
/// for only after an acknowledgement succeeded, and a delivery always
/// leads to an acknowledgement.
pub proof fn lemma_ack_before_process(p: Phase, s: BrokerSignal)
    ensures
        step_spec(p, s).1 is Process <==> (p is Acking && s is Acked),
        p is Consuming && s is Delivery ==> step_spec(p, s).1 is Ack,
{
}

} // verus!
