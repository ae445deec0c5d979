//! How long the WebSocket publisher and its subscriptions live.
//!
//! The sink broadcasts every flashblock to all connected peers. It runs one
//! loop that accepts connections and one loop per subscriber that forwards
//! flashblocks. Each loop waits for whichever event comes first, asks the
//! functions here what to do with it, and does it. A shutdown of the pipeline
//! stops every loop.

use vstd::prelude::*;

verus! {

/// What a subscriber loop can see happen.
#[derive(Debug, Clone, Copy, PartialEq, Eq, Structural)]
pub enum SubscriberEvent {
    /// The shutdown flag changed; it holds its new value.
    Shutdown(bool),
    /// A flashblock arrived on the broadcast channel.
    Payload,
    /// The subscriber fell behind and the channel dropped some flashblocks.
    Lagged,
    /// The broadcast channel was closed.
    ChannelClosed,
    /// Sending a flashblock to the peer failed.
    SendFailed,
    /// The peer closed the connection.
    PeerClose,
    /// The connection to the peer failed.
    PeerError,
    /// The peer sent anything else.
    PeerOther,
}

/// What a subscriber loop does next.
#[derive(Debug, Clone, Copy, PartialEq, Eq, Structural)]
pub enum SubscriberAction {
    /// Send the flashblock that arrived to the peer, then wait again.
    Send,
    /// Wait for the next event.
    Continue,
    /// End the subscription.
    Stop,
}

/// The decision of a subscriber loop on one event: it ends on shutdown, when
/// the channel is closed, when a send fails and when the peer closes the
/// connection or it fails; it forwards each flashblock and goes on after a
/// lag or any other message of the peer.
pub open spec fn spec_subscriber_step(event: SubscriberEvent) -> SubscriberAction {
    match event {
        SubscriberEvent::Shutdown(true) => SubscriberAction::Stop,
        SubscriberEvent::Shutdown(false) => SubscriberAction::Continue,
        SubscriberEvent::Payload => SubscriberAction::Send,
        SubscriberEvent::Lagged => SubscriberAction::Continue,
        SubscriberEvent::ChannelClosed => SubscriberAction::Stop,
        SubscriberEvent::SendFailed => SubscriberAction::Stop,
        SubscriberEvent::PeerClose => SubscriberAction::Stop,
        SubscriberEvent::PeerError => SubscriberAction::Stop,
        SubscriberEvent::PeerOther => SubscriberAction::Continue,
    }
}

/// Decides what a subscriber loop does on one event.
pub fn subscriber_step(event: SubscriberEvent) -> (r: SubscriberAction)
    ensures
        r == spec_subscriber_step(event),
{
    match event {
        SubscriberEvent::Shutdown(stop) => {
            if stop {
                SubscriberAction::Stop
            } else {
                SubscriberAction::Continue
            }
        },
        SubscriberEvent::Payload => SubscriberAction::Send,
        SubscriberEvent::Lagged | SubscriberEvent::PeerOther => SubscriberAction::Continue,
        SubscriberEvent::ChannelClosed
        | SubscriberEvent::SendFailed
        | SubscriberEvent::PeerClose
        | SubscriberEvent::PeerError => SubscriberAction::Stop,
    }
}

/// What the listener loop can see happen.
#[derive(Debug, Clone, Copy, PartialEq, Eq, Structural)]
pub enum ListenerEvent {
    /// The shutdown flag changed; it holds its new value.
    Shutdown(bool),
    /// A connection was accepted and its WebSocket handshake completed.
    Accepted,
    /// Accepting a connection or its handshake failed.
    AcceptFailed,
}

/// What the listener loop does next.
#[derive(Debug, Clone, Copy, PartialEq, Eq, Structural)]
pub enum ListenerAction {
    /// Start a subscriber loop for the new connection, then wait again.
    Subscribe,
    /// Wait for the next event.
    Continue,
    /// Stop listening.
    Stop,
}

/// The decision of the listener loop on one event: it stops on shutdown,
/// starts a subscription for each connection that completes its handshake,
/// and goes on after a failed one.
pub open spec fn spec_listener_step(event: ListenerEvent) -> ListenerAction {
    match event {
        ListenerEvent::Shutdown(true) => ListenerAction::Stop,
        ListenerEvent::Shutdown(false) => ListenerAction::Continue,
        ListenerEvent::Accepted => ListenerAction::Subscribe,
        ListenerEvent::AcceptFailed => ListenerAction::Continue,
    }
}

/// Decides what the listener loop does on one event.
pub fn listener_step(event: ListenerEvent) -> (r: ListenerAction)
    ensures
        r == spec_listener_step(event),
{
    match event {
        ListenerEvent::Shutdown(stop) => {
            if stop {
                ListenerAction::Stop
            } else {
                ListenerAction::Continue
            }
        },
        ListenerEvent::Accepted => ListenerAction::Subscribe,
        ListenerEvent::AcceptFailed => ListenerAction::Continue,
    }
}

/// A shutdown stops the publisher: the listener and every subscriber end on
/// it, and nothing but a shutdown, a closed channel or a failed or closed
/// connection ends a subscription.
pub proof fn lemma_shutdown_stops_publisher(event: SubscriberEvent)
    ensures
        spec_listener_step(ListenerEvent::Shutdown(true)) == ListenerAction::Stop,
        spec_subscriber_step(SubscriberEvent::Shutdown(true)) == SubscriberAction::Stop,
        spec_subscriber_step(event) == SubscriberAction::Stop <==> (
            event == SubscriberEvent::Shutdown(true)
            || event == SubscriberEvent::ChannelClosed
            || event == SubscriberEvent::SendFailed
            || event == SubscriberEvent::PeerClose
            || event == SubscriberEvent::PeerError),
{
}

} // verus!
