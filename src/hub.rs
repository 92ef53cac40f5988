//! The lifecycle of one duplex broadcast connection.
//!
//! Each connection reads frames from its client and republishes text onto the
//! shared channel, and forwards whatever the channel carries back to its
//! client. The decisions live here as a transition function from the
//! connection's state and one event to its next state and one action; the
//! caller performs the action and reports the next event.

use vstd::prelude::*;

verus! {

/// Capacity of the shared broadcast channel, in messages.
pub const CHANNEL_CAPACITY: usize = 256;

#[derive(PartialEq, Eq, Structural, Clone, Copy, Debug)]
pub enum ConnState {
    Connecting,
    Open,
    Closing,
    Closed,
}

/// Something that happened to one connection.
pub enum HubEvent {
    /// The upgrade handshake succeeded.
    Upgraded,
    /// The client sent a text frame.
    InboundText(String),
    /// The client sent a frame of another kind (binary, ping, pong).
    InboundOther,
    /// The client sent a close frame.
    InboundClose,
    /// Reading from the client failed or the stream ended.
    InboundFailed,
    /// The shared channel carried a message to this connection.
    ChannelMessage(String),
    /// This connection fell behind the channel and missed this many messages.
    ChannelLagged(u64),
    /// The shared channel has no publishers left.
    ChannelClosed,
    /// Writing to the client failed.
    DeliveryFailed,
    /// Both directions of the connection have stopped.
    TornDown,
}

/// What the caller does next for one connection.
pub enum HubAction {
    /// Nothing to do; wait for the next event.
    Idle,
    /// Take a subscription on the shared channel.
    Subscribe,
    /// Publish this text on the shared channel, for every open connection.
    Publish(String),
    /// Write this text to this connection's client.
    Deliver(String),
    /// Stop both directions of this connection.
    Teardown,
    /// Release this connection's subscription and socket.
    Release,
}

/// The transition table of a connection.
pub open spec fn next(s: ConnState, e: HubEvent) -> (ConnState, HubAction) {
    match s {
        ConnState::Connecting => match e {
            HubEvent::Upgraded => (ConnState::Open, HubAction::Subscribe),
            HubEvent::InboundFailed => (ConnState::Closed, HubAction::Release),
            _ => (ConnState::Connecting, HubAction::Idle),
        },
        ConnState::Open => match e {
            HubEvent::InboundText(t) => (ConnState::Open, HubAction::Publish(t)),
            HubEvent::ChannelMessage(m) => (ConnState::Open, HubAction::Deliver(m)),
            HubEvent::InboundClose => (ConnState::Closing, HubAction::Teardown),
            HubEvent::InboundFailed => (ConnState::Closing, HubAction::Teardown),
            HubEvent::DeliveryFailed => (ConnState::Closing, HubAction::Teardown),
            HubEvent::ChannelClosed => (ConnState::Closing, HubAction::Teardown),
            HubEvent::TornDown => (ConnState::Closing, HubAction::Teardown),
            _ => (ConnState::Open, HubAction::Idle),
        },
        ConnState::Closing => match e {
            HubEvent::TornDown => (ConnState::Closed, HubAction::Release),
            _ => (ConnState::Closing, HubAction::Idle),
        },
        ConnState::Closed => (ConnState::Closed, HubAction::Idle),
    }
}

/// Decides what one connection does on one event.
pub fn step(s: ConnState, e: HubEvent) -> (r: (ConnState, HubAction))
    ensures
        r == next(s, e),
{
    match s {
        ConnState::Connecting => match e {
            HubEvent::Upgraded => (ConnState::Open, HubAction::Subscribe),
            HubEvent::InboundFailed => (ConnState::Closed, HubAction::Release),
            _ => (ConnState::Connecting, HubAction::Idle),
        },
        ConnState::Open => match e {
            HubEvent::InboundText(t) => (ConnState::Open, HubAction::Publish(t)),
            HubEvent::ChannelMessage(m) => (ConnState::Open, HubAction::Deliver(m)),
            HubEvent::InboundClose => (ConnState::Closing, HubAction::Teardown),
            HubEvent::InboundFailed => (ConnState::Closing, HubAction::Teardown),
            HubEvent::DeliveryFailed => (ConnState::Closing, HubAction::Teardown),
            HubEvent::ChannelClosed => (ConnState::Closing, HubAction::Teardown),
            HubEvent::TornDown => (ConnState::Closing, HubAction::Teardown),
            _ => (ConnState::Open, HubAction::Idle),
        },
        ConnState::Closing => match e {
            HubEvent::TornDown => (ConnState::Closed, HubAction::Release),
            _ => (ConnState::Closing, HubAction::Idle),
        },
        ConnState::Closed => (ConnState::Closed, HubAction::Idle),
    }
}

/// The state after a sequence of events.
pub open spec fn state_after(s: ConnState, es: Seq<HubEvent>) -> ConnState
    decreases es.len(),
{
    if es.len() == 0 {
        s
    } else {
        next(state_after(s, es.drop_last()), es.last()).0
    }
}

/// The actions taken along a sequence of events, one per event.
pub open spec fn actions_along(s: ConnState, es: Seq<HubEvent>) -> Seq<HubAction>
    decreases es.len(),
{
    if es.len() == 0 {
        Seq::empty()
    } else {
        actions_along(s, es.drop_last()).push(next(state_after(s, es.drop_last()), es.last()).1)
    }
}

/// Whether an action writes to the client or publishes to others.
pub open spec fn carries_message(a: HubAction) -> bool {
    a is Publish || a is Deliver
}

/// A text frame from an open connection is published unchanged, with no mark
/// of where it came from; so every open connection, the sender included, is
/// handed it by the channel and writes it to its client unchanged.
pub proof fn lemma_text_reaches_every_open_connection(t: String)
    ensures
        next(ConnState::Open, HubEvent::InboundText(t)) == (ConnState::Open, HubAction::Publish(t)),
        next(ConnState::Open, HubEvent::ChannelMessage(t)) == (ConnState::Open, HubAction::Deliver(t)),
{
}

/// Once a connection is closing or closed it never leaves those states and
/// never again publishes or delivers a message, whatever happens to it.
pub proof fn lemma_closed_connection_stays_silent(s: ConnState, es: Seq<HubEvent>)
    requires
        s == ConnState::Closing || s == ConnState::Closed,
    ensures
        state_after(s, es) == ConnState::Closing || state_after(s, es) == ConnState::Closed,
        actions_along(s, es).len() == es.len(),
        forall|i: int| 0 <= i < es.len() ==> !carries_message(#[trigger] actions_along(s, es)[i]),
    decreases es.len(),
{
    if es.len() > 0 {
        lemma_closed_connection_stays_silent(s, es.drop_last());
    }
}

/// A close frame, a failed read or a failed write closes only the connection
/// it happened on: its one action is to stop that connection's two
/// directions, and it publishes nothing that others would see.
pub proof fn lemma_failure_is_local(e: HubEvent)
    requires
        e is InboundClose || e is InboundFailed || e is DeliveryFailed,
    ensures
        next(ConnState::Open, e) == (ConnState::Closing, HubAction::Teardown),
{
}

/// Every event that does not end the connection keeps an open connection
/// open.
pub open spec fn keeps_open(e: HubEvent) -> bool {
    e is InboundText || e is InboundOther || e is ChannelMessage || e is ChannelLagged
}

/// An open connection that only sees traffic stays open, and its actions are
/// exactly the publications of its own texts and the deliveries of what the
/// channel carries; missed messages (lag) are skipped, never waited for.
pub proof fn lemma_open_connection_keeps_flowing(es: Seq<HubEvent>)
    requires
        forall|i: int| 0 <= i < es.len() ==> keeps_open(#[trigger] es[i]),
    ensures
        state_after(ConnState::Open, es) == ConnState::Open,
        actions_along(ConnState::Open, es).len() == es.len(),
        forall|i: int|
            0 <= i < es.len() ==> (#[trigger] actions_along(ConnState::Open, es)[i]) == next(
                ConnState::Open,
                es[i],
            ).1,
    decreases es.len(),
{
    if es.len() > 0 {
        let init = es.drop_last();
        assert forall|i: int| 0 <= i < init.len() implies keeps_open(#[trigger] init[i]) by {
            assert(init[i] == es[i]);
        }
        lemma_open_connection_keeps_flowing(init);
        assert(keeps_open(es[es.len() - 1]));
    }
}

/// A connection that fell behind resumes: after any run of lag notices it is
/// still open, did nothing on them, and delivers the next message unchanged.
pub proof fn lemma_lagging_connection_resumes(es: Seq<HubEvent>, m: String)
    requires
        forall|i: int| 0 <= i < es.len() ==> (#[trigger] es[i]) is ChannelLagged,
    ensures
        state_after(ConnState::Open, es) == ConnState::Open,
        forall|i: int|
            0 <= i < es.len() ==> (#[trigger] actions_along(ConnState::Open, es)[i]) is Idle,
        next(state_after(ConnState::Open, es), HubEvent::ChannelMessage(m)) == (
        ConnState::Open,
        HubAction::Deliver(m),
        ),
{
    assert forall|i: int| 0 <= i < es.len() implies keeps_open(#[trigger] es[i]) by {
        assert(es[i] is ChannelLagged);
    }
    lemma_open_connection_keeps_flowing(es);
    assert forall|i: int| 0 <= i < es.len() implies (#[trigger] actions_along(
        ConnState::Open,
        es,
    )[i]) is Idle by {
        assert(es[i] is ChannelLagged);
    }
}

/// Closing one connection spares the others: the closed one stops both its
/// directions and, whatever follows, delivers and publishes nothing more,
/// while another connection that only sees traffic stays open and still
/// delivers each later message unchanged.
pub proof fn lemma_closing_one_spares_another(
    a_later: Seq<HubEvent>,
    b_traffic: Seq<HubEvent>,
    m: String,
)
    requires
        forall|i: int| 0 <= i < b_traffic.len() ==> keeps_open(#[trigger] b_traffic[i]),
    ensures
        next(ConnState::Open, HubEvent::InboundClose) == (ConnState::Closing, HubAction::Teardown),
        forall|i: int|
            0 <= i < a_later.len() ==> !carries_message(
                #[trigger] actions_along(ConnState::Closing, a_later)[i],
            ),
        state_after(ConnState::Open, b_traffic) == ConnState::Open,
        next(state_after(ConnState::Open, b_traffic), HubEvent::ChannelMessage(m)) == (
        ConnState::Open,
        HubAction::Deliver(m),
        ),
{
    lemma_closed_connection_stays_silent(ConnState::Closing, a_later);
    lemma_open_connection_keeps_flowing(b_traffic);
}

} // verus!
