use vstd::prelude::*;

use crate::route::RouteTable;
use crate::route::Topic;
use crate::route::route_map;
use crate::route::source_topics_of;
use crate::transform::transform;
use crate::transform::transform_spec;

verus! {

/// The source listener's connection state.
#[derive(Debug, Clone, Copy, PartialEq, Eq, Structural)]
pub enum SourceState {
    /// No acknowledged connection to the source broker.
    Disconnected,
    /// Connection acknowledged, subscription request not yet issued.
    ConnectedUnsubscribed,
    /// Connection acknowledged and the batch subscription request issued.
    ConnectedSubscribed,
}

/// One event drawn from the source connection's event stream, reduced to the
/// values the routing decision reads.
pub enum SourceEvent {
    /// The broker acknowledged the connection successfully.
    ConnAckSuccess,
    /// An inbound message: its topic, payload and retain flag.
    Inbound { topic: String, payload: Vec<u8>, retain: bool },
    /// Any other protocol event: refused connections, acknowledgments, pings.
    Other,
    /// An error while polling the event source; the underlying transport
    /// reconnects by itself, so the loop merely keeps polling.
    ConnError,
}

/// What the source listener must do in reaction to one event.
pub enum SourceAction {
    /// Nothing: the event carries no routing work.
    NoAction,
    /// Issue one batch subscription request for all listed topics, each at
    /// at-least-once delivery quality.
    SubscribeAll(Vec<String>),
    /// Publish the payload to the destination topic, at at-least-once
    /// delivery quality, with the given retain flag.
    Publish { topic: String, payload: Vec<u8>, retain: bool },
}

/// What `step` must decide for one event.
///
/// A successful connection acknowledgment, from any state, demands one batch
/// subscription for every source topic of the table, in entry order. An
/// inbound message while connected-subscribed is routed: if its topic is
/// mapped, exactly one publish to the mapped destination topic carries the
/// transformed payload and the original retain flag; an unmapped topic is
/// dropped silently. Any other event does no routing work; an error while
/// polling loses the connection.
pub open spec fn step_post(
    state: SourceState,
    entries: Seq<Topic>,
    event: SourceEvent,
    r: (SourceState, SourceAction),
) -> bool {
    match event {
        SourceEvent::ConnAckSuccess => {
            &&& r.0 is ConnectedUnsubscribed
            &&& (r.1 matches SourceAction::SubscribeAll(topics) && topics@ == source_topics_of(
                entries,
            ))
        },
        SourceEvent::Inbound { topic, payload, retain } => {
            &&& r.0 == state
            &&& if state is ConnectedSubscribed && route_map(entries).contains_key(topic@) {
                r.1 matches SourceAction::Publish { topic: out_topic, payload: out_payload, retain: out_retain }
                    && out_topic == route_map(entries)[topic@].to && out_payload@
                    == transform_spec(payload@, route_map(entries)[topic@].payload) && out_retain
                    == retain
            } else {
                r.1 is NoAction
            }
        },
        SourceEvent::Other => r == (state, SourceAction::NoAction),
        SourceEvent::ConnError => r == (SourceState::Disconnected, SourceAction::NoAction),
    }
}

/// Decides the source listener's reaction to one event: the next state and
/// the action to perform, exactly as `step_post` states. Pure: it reads only
/// the current state, the immutable route table and the event, so nothing the
/// destination side does can influence it.
pub fn step(state: SourceState, table: &RouteTable, event: SourceEvent) -> (r: (
    SourceState,
    SourceAction,
))
    ensures
        step_post(state, table@, event, r),
{
    match event {
        SourceEvent::ConnAckSuccess => {
            let topics = table.source_topics();
            (SourceState::ConnectedUnsubscribed, SourceAction::SubscribeAll(topics))
        },
        SourceEvent::Inbound { topic, payload, retain } => {
            if state == SourceState::ConnectedSubscribed {
                match table.lookup(&topic) {
                    Some(route) => {
                        let out_payload = transform(payload, &route.payload);
                        let out_topic = route.to.clone();
                        (
                            state,
                            SourceAction::Publish {
                                topic: out_topic,
                                payload: out_payload,
                                retain,
                            },
                        )
                    },
                    None => (state, SourceAction::NoAction),
                }
            } else {
                (state, SourceAction::NoAction)
            }
        },
        SourceEvent::Other => (state, SourceAction::NoAction),
        SourceEvent::ConnError => (SourceState::Disconnected, SourceAction::NoAction),
    }
}

/// Moves the listener to connected-subscribed once the subscription request
/// has been accepted by the client layer: the design does not wait for the
/// broker's subscription acknowledgment. In any other state nothing changes.
pub fn subscription_issued(state: SourceState) -> (r: SourceState)
    ensures
        state is ConnectedUnsubscribed ==> r is ConnectedSubscribed,
        !(state is ConnectedUnsubscribed) ==> r == state,
{
    if state == SourceState::ConnectedUnsubscribed {
        SourceState::ConnectedSubscribed
    } else {
        state
    }
}

} // verus!
