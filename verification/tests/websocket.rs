use flashblocks::websocket::{
    listener_step, subscriber_step, ListenerAction, ListenerEvent, SubscriberAction, SubscriberEvent,
};

#[test]
fn subscriber_forwards_flashblocks_until_it_ends() {
    assert_eq!(subscriber_step(SubscriberEvent::Payload), SubscriberAction::Send);
    assert_eq!(subscriber_step(SubscriberEvent::Lagged), SubscriberAction::Continue);
    assert_eq!(subscriber_step(SubscriberEvent::PeerOther), SubscriberAction::Continue);
    assert_eq!(subscriber_step(SubscriberEvent::Shutdown(false)), SubscriberAction::Continue);
    for event in [
        SubscriberEvent::Shutdown(true),
        SubscriberEvent::ChannelClosed,
        SubscriberEvent::SendFailed,
        SubscriberEvent::PeerClose,
        SubscriberEvent::PeerError,
    ] {
        assert_eq!(subscriber_step(event), SubscriberAction::Stop, "{event:?}");
    }
}

#[test]
fn listener_subscribes_each_accepted_peer() {
    assert_eq!(listener_step(ListenerEvent::Accepted), ListenerAction::Subscribe);
    assert_eq!(listener_step(ListenerEvent::AcceptFailed), ListenerAction::Continue);
    assert_eq!(listener_step(ListenerEvent::Shutdown(false)), ListenerAction::Continue);
}

#[test]
fn shutdown_stops_the_publisher() {
    assert_eq!(listener_step(ListenerEvent::Shutdown(true)), ListenerAction::Stop);
    assert_eq!(subscriber_step(SubscriberEvent::Shutdown(true)), SubscriberAction::Stop);
}
