use mqtt_repeater::bridge::SourceAction;
use mqtt_repeater::bridge::SourceEvent;
use mqtt_repeater::bridge::SourceState;
use mqtt_repeater::bridge::step;
use mqtt_repeater::bridge::subscription_issued;
use mqtt_repeater::route::RouteTable;
use mqtt_repeater::route::Topic;
use mqtt_repeater::transform::TransformRule;

fn entry(from: &str, to: &str, payload: TransformRule) -> Topic {
    Topic { from: from.to_string(), to: to.to_string(), payload }
}

fn inbound(topic: &str, payload: &[u8], retain: bool) -> SourceEvent {
    SourceEvent::Inbound { topic: topic.to_string(), payload: payload.to_vec(), retain }
}

/// Connects and subscribes, returning the connected-subscribed state.
fn connect_and_subscribe(table: &RouteTable) -> SourceState {
    let (state, action) = step(SourceState::Disconnected, table, SourceEvent::ConnAckSuccess);
    assert_eq!(state, SourceState::ConnectedUnsubscribed);
    match action {
        SourceAction::SubscribeAll(topics) => {
            assert_eq!(topics, table.source_topics());
        }
        _ => panic!("connection acknowledgment must demand a subscription"),
    }
    let state = subscription_issued(state);
    assert_eq!(state, SourceState::ConnectedSubscribed);
    state
}

#[test]
fn connack_subscribes_to_every_source_topic() {
    let table = RouteTable::build(vec![
        entry("dev/a", "cloud/a", TransformRule::CopyAsIs),
        entry("dev/b", "cloud/b", TransformRule::InvertBoolean),
    ]);
    let (state, action) = step(SourceState::Disconnected, &table, SourceEvent::ConnAckSuccess);
    assert_eq!(state, SourceState::ConnectedUnsubscribed);
    match action {
        SourceAction::SubscribeAll(topics) => {
            assert_eq!(topics, vec!["dev/a".to_string(), "dev/b".to_string()]);
        }
        _ => panic!("connection acknowledgment must demand a subscription"),
    }
}

#[test]
fn mapped_message_is_republished_with_copy() {
    let table = RouteTable::build(vec![entry("dev/a", "cloud/a", TransformRule::CopyAsIs)]);
    let state = connect_and_subscribe(&table);
    let (state2, action) = step(state, &table, inbound("dev/a", b"hello", true));
    assert_eq!(state2, SourceState::ConnectedSubscribed);
    match action {
        SourceAction::Publish { topic, payload, retain } => {
            assert_eq!(topic, "cloud/a");
            assert_eq!(payload, b"hello".to_vec());
            assert!(retain);
        }
        _ => panic!("a mapped message must produce exactly one publish"),
    }
}

#[test]
fn mapped_message_is_republished_with_inverted_boolean() {
    let table = RouteTable::build(vec![entry("dev/b", "cloud/b", TransformRule::InvertBoolean)]);
    let state = connect_and_subscribe(&table);
    let (_, action) = step(state, &table, inbound("dev/b", b"1", false));
    match action {
        SourceAction::Publish { topic, payload, retain } => {
            assert_eq!(topic, "cloud/b");
            assert_eq!(payload, b"false".to_vec());
            assert!(!retain);
        }
        _ => panic!("a mapped message must produce exactly one publish"),
    }
}

#[test]
fn retain_flag_is_preserved() {
    let table = RouteTable::build(vec![entry("dev/a", "cloud/a", TransformRule::CopyAsIs)]);
    let state = connect_and_subscribe(&table);
    let (_, without) = step(state, &table, inbound("dev/a", b"x", false));
    match without {
        SourceAction::Publish { retain, .. } => assert!(!retain),
        _ => panic!("expected a publish"),
    }
    let (_, with) = step(state, &table, inbound("dev/a", b"x", true));
    match with {
        SourceAction::Publish { retain, .. } => assert!(retain),
        _ => panic!("expected a publish"),
    }
}

#[test]
fn unmapped_message_produces_no_publish() {
    let table = RouteTable::build(vec![entry("dev/a", "cloud/a", TransformRule::CopyAsIs)]);
    let state = connect_and_subscribe(&table);
    let (state2, action) = step(state, &table, inbound("dev/zzz", b"hello", false));
    assert_eq!(state2, SourceState::ConnectedSubscribed);
    assert!(matches!(action, SourceAction::NoAction));
}

#[test]
fn message_before_subscription_is_dropped() {
    let table = RouteTable::build(vec![entry("dev/a", "cloud/a", TransformRule::CopyAsIs)]);
    let (state, action) = step(
        SourceState::Disconnected,
        &table,
        inbound("dev/a", b"hello", false),
    );
    assert_eq!(state, SourceState::Disconnected);
    assert!(matches!(action, SourceAction::NoAction));
}

#[test]
fn connection_error_keeps_the_loop_going() {
    let table = RouteTable::build(vec![entry("dev/a", "cloud/a", TransformRule::CopyAsIs)]);
    let state = connect_and_subscribe(&table);
    let (state2, action) = step(state, &table, SourceEvent::ConnError);
    assert_eq!(state2, SourceState::Disconnected);
    assert!(matches!(action, SourceAction::NoAction));
    // A fresh acknowledgment after the error subscribes again.
    let state3 = connect_and_subscribe(&table);
    let (_, action) = step(state3, &table, inbound("dev/a", b"again", false));
    assert!(matches!(action, SourceAction::Publish { .. }));
}

#[test]
fn other_events_change_nothing() {
    let table = RouteTable::build(vec![entry("dev/a", "cloud/a", TransformRule::CopyAsIs)]);
    let state = connect_and_subscribe(&table);
    let (state2, action) = step(state, &table, SourceEvent::Other);
    assert_eq!(state2, SourceState::ConnectedSubscribed);
    assert!(matches!(action, SourceAction::NoAction));
}

#[test]
fn subscription_issued_moves_only_the_unsubscribed_state() {
    assert_eq!(
        subscription_issued(SourceState::ConnectedUnsubscribed),
        SourceState::ConnectedSubscribed
    );
    assert_eq!(subscription_issued(SourceState::Disconnected), SourceState::Disconnected);
    assert_eq!(
        subscription_issued(SourceState::ConnectedSubscribed),
        SourceState::ConnectedSubscribed
    );
}
