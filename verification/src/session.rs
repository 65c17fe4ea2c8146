//! The life of one WebSocket connection, from the upgrade to its end.

use vstd::prelude::*;

verus! {

/// Where a connection stands.
#[derive(Debug, Clone, Copy, PartialEq, Eq, Structural)]
pub enum Session {
    /// The connection is being upgraded.
    Upgrading,
    /// The next message is awaited from the channel.
    Receiving,
    /// A message is on its way to the client.
    Delivering,
    /// The connection is over.
    Finished,
    /// The connection is over, by a failure.
    Failed,
}

/// What can happen to a connection.
#[derive(Debug)]
pub enum Event {
    /// The connection is a WebSocket now.
    Upgraded,
    /// The connection could not be upgraded.
    UpgradeFailed,
    /// A message arrived from the channel.
    Received(String),
    /// So many messages were lost, because the channel does not keep as many as the client is
    /// behind.
    Lagged(u64),
    /// The channel is closed.
    Closed,
    /// The message went out to the client.
    Delivered,
    /// The message could not be sent to the client.
    DeliveryFailed,
}

/// What is to be done for a connection.
#[derive(Debug)]
pub enum Action {
    /// Await the next message from the channel.
    Receive,
    /// Send the message to the client, as text.
    Deliver(String),
    /// Close the connection: it came to its end.
    Finish,
    /// Close the connection, and report the failure.
    Fail,
}

/// What an [`Event`] says.
pub enum EventView {
    Upgraded,
    UpgradeFailed,
    Received(Seq<char>),
    Lagged(u64),
    Closed,
    Delivered,
    DeliveryFailed,
}

/// What an [`Action`] says.
pub enum ActionView {
    Receive,
    Deliver(Seq<char>),
    Finish,
    Fail,
}

impl View for Event {
    type V = EventView;

    open spec fn view(&self) -> EventView {
        match self {
            Event::Upgraded => EventView::Upgraded,
            Event::UpgradeFailed => EventView::UpgradeFailed,
            Event::Received(text) => EventView::Received(text@),
            Event::Lagged(lost) => EventView::Lagged(*lost),
            Event::Closed => EventView::Closed,
            Event::Delivered => EventView::Delivered,
            Event::DeliveryFailed => EventView::DeliveryFailed,
        }
    }
}

impl View for Action {
    type V = ActionView;

    open spec fn view(&self) -> ActionView {
        match self {
            Action::Receive => ActionView::Receive,
            Action::Deliver(text) => ActionView::Deliver(text@),
            Action::Finish => ActionView::Finish,
            Action::Fail => ActionView::Fail,
        }
    }
}

/// Whether `event` can happen to a connection that stands at `session`.
pub open spec fn expects(session: Session, event: EventView) -> bool {
    match event {
        EventView::Upgraded | EventView::UpgradeFailed => session == Session::Upgrading,
        EventView::Received(_) | EventView::Lagged(_) | EventView::Closed => session
            == Session::Receiving,
        EventView::Delivered | EventView::DeliveryFailed => session == Session::Delivering,
    }
}

/// Where a connection stands after `event`.
pub open spec fn after(event: EventView) -> Session {
    match event {
        EventView::Upgraded | EventView::Delivered => Session::Receiving,
        EventView::Received(_) => Session::Delivering,
        EventView::Lagged(_) | EventView::Closed => Session::Finished,
        EventView::UpgradeFailed | EventView::DeliveryFailed => Session::Failed,
    }
}

/// What `event` calls for.
pub open spec fn response(event: EventView) -> ActionView {
    match event {
        EventView::Upgraded | EventView::Delivered => ActionView::Receive,
        EventView::Received(text) => ActionView::Deliver(text),
        EventView::Lagged(_) | EventView::Closed => ActionView::Finish,
        EventView::UpgradeFailed | EventView::DeliveryFailed => ActionView::Fail,
    }
}

impl Session {
    /// A connection that is about to be upgraded.
    pub fn new() -> (session: Session)
        ensures
            session == Session::Upgrading,
    {
        Session::Upgrading
    }

    /// Takes note of what happened to the connection, and tells what is to be done next.
    ///
    /// Each message from the channel goes out to the client as it is, and the next one is awaited
    /// once it has gone out. The connection ends when the channel is closed or the client is too
    /// far behind, and it fails when it cannot be upgraded or a message cannot be sent.
    pub fn step(&mut self, event: Event) -> (action: Action)
        requires
            expects(*old(self), event@),
        ensures
            *final(self) == after(event@),
            action@ == response(event@),
    {
        match event {
            Event::Upgraded | Event::Delivered => {
                *self = Session::Receiving;
                Action::Receive
            },
            Event::Received(text) => {
                *self = Session::Delivering;
                Action::Deliver(text)
            },
            Event::Lagged(_) | Event::Closed => {
                *self = Session::Finished;
                Action::Finish
            },
            Event::UpgradeFailed | Event::DeliveryFailed => {
                *self = Session::Failed;
                Action::Fail
            },
        }
    }
}

/// Whether `events` can happen, in this order, to a connection that stands at `session`.
pub open spec fn possible(session: Session, events: Seq<EventView>) -> bool
    decreases events.len(),
{
    events.len() > 0 ==> expects(session, events[0]) && possible(
        after(events[0]),
        events.drop_first(),
    )
}

/// Where a connection that stands at `session` stands after `events`.
pub open spec fn reached(session: Session, events: Seq<EventView>) -> Session {
    if events.len() == 0 {
        session
    } else {
        after(events.last())
    }
}

/// The messages that arrived from the channel with `events`, in order.
pub open spec fn received(events: Seq<EventView>) -> Seq<Seq<char>>
    decreases events.len(),
{
    if events.len() == 0 {
        Seq::empty()
    } else {
        let before = received(events.drop_last());
        match events.last() {
            EventView::Received(text) => before.push(text),
            _ => before,
        }
    }
}

/// The messages that went out to the client with `events`, in order: those that the connection
/// was told to send, and that were sent.
pub open spec fn delivered(events: Seq<EventView>) -> Seq<Seq<char>>
    decreases events.len(),
{
    if events.len() < 2 {
        Seq::empty()
    } else {
        let before = delivered(events.drop_last());
        match (response(events[events.len() - 2]), events.last()) {
            (ActionView::Deliver(text), EventView::Delivered) => before.push(text),
            _ => before,
        }
    }
}

/// The client gets what arrives from the channel, word for word and in order: all of it, but for
/// the last message while it is on its way or where it could not be sent.
pub proof fn client_gets_what_arrives(events: Seq<EventView>)
    requires
        possible(Session::Upgrading, events),
    ensures
        reached(Session::Upgrading, events) == Session::Receiving || reached(
            Session::Upgrading,
            events,
        ) == Session::Finished ==> delivered(events) == received(events),
        reached(Session::Upgrading, events) == Session::Delivering ==> delivered(events)
            == received(events).drop_last(),
        delivered(events).is_prefix_of(received(events)),
{
    lemma_deliveries(events);
}

/// How far the deliveries are behind the messages, whatever happened.
proof fn lemma_deliveries(events: Seq<EventView>)
    requires
        possible(Session::Upgrading, events),
    ensures
        match reached(Session::Upgrading, events) {
            Session::Upgrading => events.len() == 0,
            Session::Receiving | Session::Finished => delivered(events) == received(events),
            Session::Delivering => events.last() is Received && received(events)
                == delivered(events).push(events.last()->Received_0),
            Session::Failed => delivered(events).is_prefix_of(received(events)),
        },
    decreases events.len(),
{
    if events.len() > 0 {
        let before = events.drop_last();
        lemma_possible_drop_last(Session::Upgrading, events);
        lemma_deliveries(before);
        if before.len() > 0 {
            assert(before.last() == events[events.len() - 2]);
            assert(delivered(before).is_prefix_of(
                delivered(before).push(before.last()->Received_0),
            ));
        } else {
            assert(received(before) =~= Seq::empty());
        }
        assert(delivered(events).is_prefix_of(delivered(events)));
    }
}

/// What can happen can happen but for its end, and its end can happen after that.
proof fn lemma_possible_drop_last(session: Session, events: Seq<EventView>)
    requires
        events.len() > 0,
        possible(session, events),
    ensures
        possible(session, events.drop_last()),
        expects(reached(session, events.drop_last()), events.last()),
    decreases events.len(),
{
    if events.len() > 1 {
        let rest = events.drop_first();
        lemma_possible_drop_last(after(events[0]), rest);
        assert(events.drop_last().drop_first() =~= rest.drop_last());
        assert(events.drop_last()[0] == events[0]);
    }
}

/// Once a connection has finished or failed, nothing happens to it any more, and so nothing more
/// is sent to its client.
pub proof fn nothing_follows_the_end(events: Seq<EventView>, more: EventView)
    requires
        possible(Session::Upgrading, events),
        reached(Session::Upgrading, events) == Session::Finished || reached(
            Session::Upgrading,
            events,
        ) == Session::Failed,
    ensures
        !possible(Session::Upgrading, events.push(more)),
{
    if possible(Session::Upgrading, events.push(more)) {
        lemma_possible_drop_last(Session::Upgrading, events.push(more));
        assert(events.push(more).drop_last() =~= events);
    }
}

/// A connection starts with the upgrade.
pub proof fn connections_start_with_the_upgrade(session: Session)
    requires
        call_ensures(Session::new, (), session),
    ensures
        session == Session::Upgrading,
{
}

/// Whatever text arrives from the channel, the client is sent exactly that text, and the
/// connection goes on.
pub proof fn every_message_is_sent_on(
    session: &mut Session,
    event: Event,
    action: Action,
    text: String,
)
    requires
        event == Event::Received(text),
        call_ensures(Session::step, (session, event), action),
    ensures
        action matches Action::Deliver(sent) && sent@ == text@,
        *final(session) == Session::Delivering,
{
}

/// Nothing is sent to the client but what has just arrived from the channel.
pub proof fn only_messages_are_sent_on(session: &mut Session, event: Event, action: Action)
    requires
        call_ensures(Session::step, (session, event), action),
    ensures
        action is Deliver <==> event is Received,
        action matches Action::Deliver(sent) ==> (event matches Event::Received(text) && text@
            == sent@),
        *final(session) == Session::Delivering <==> action is Deliver,
{
}

/// A connection fails only because it could not be upgraded or a message could not be sent, and
/// comes to its end only because the channel is closed or the client is too far behind. In every
/// other case it goes on.
pub proof fn connections_end_for_a_reason(session: &mut Session, event: Event, action: Action)
    requires
        call_ensures(Session::step, (session, event), action),
    ensures
        *final(session) == Session::Failed <==> event is UpgradeFailed || event is DeliveryFailed,
        *final(session) == Session::Finished <==> event is Lagged || event is Closed,
        *final(session) == Session::Receiving <==> event is Upgraded || event is Delivered,
        *final(session) != Session::Upgrading,
        action is Fail <==> *final(session) == Session::Failed,
        action is Finish <==> *final(session) == Session::Finished,
        action is Receive <==> *final(session) == Session::Receiving,
{
}

/// A connection takes note of the outcome of each thing that it was told to do, whatever the
/// outcome is.
pub proof fn connections_take_every_outcome(session: &mut Session, event: Event)
    requires
        match *old(session) {
            Session::Upgrading => event is Upgraded || event is UpgradeFailed,
            Session::Receiving => event is Received || event is Lagged || event is Closed,
            Session::Delivering => event is Delivered || event is DeliveryFailed,
            Session::Finished | Session::Failed => false,
        },
    ensures
        call_requires(Session::step, (session, event)),
{
}

/// What arrived from the channel grows with each message by that message, and by nothing else.
pub proof fn received_grows_by_messages(events: Seq<EventView>, event: EventView)
    ensures
        received(Seq::empty()) == Seq::<Seq<char>>::empty(),
        event matches EventView::Received(text) ==> received(events.push(event)) == received(
            events,
        ).push(text),
        !(event is Received) ==> received(events.push(event)) == received(events),
{
    assert(events.push(event).drop_last() =~= events);
}

/// What went out to the client grows by a message once that message arrived and was sent, and by
/// nothing else.
pub proof fn delivered_grows_by_messages_sent(
    events: Seq<EventView>,
    event: EventView,
    next: EventView,
)
    ensures
        delivered(Seq::empty()) == Seq::<Seq<char>>::empty(),
        delivered(seq![event]) == Seq::<Seq<char>>::empty(),
        event is Received && next is Delivered ==> delivered(events.push(event).push(next))
            == delivered(events.push(event)).push(event->Received_0),
        !(event is Received && next is Delivered) ==> delivered(events.push(event).push(next))
            == delivered(events.push(event)),
{
    let longer = events.push(event).push(next);
    assert(longer.drop_last() =~= events.push(event));
    assert(longer[longer.len() - 2] == event);
}

/// A connection that failed lost at most one message, the one that could not be sent: before the
/// upgrade there is none, and all that came before the last one went out.
pub proof fn failures_lose_one_message(events: Seq<EventView>)
    requires
        possible(Session::Upgrading, events),
        reached(Session::Upgrading, events) == Session::Failed,
    ensures
        events.last() is UpgradeFailed || events.last() is DeliveryFailed,
        events.last() is UpgradeFailed ==> received(events) == Seq::<Seq<char>>::empty(),
        events.last() is DeliveryFailed ==> received(events).len() == delivered(events).len() + 1,
        delivered(events) == received(events).take(delivered(events).len() as int),
{
    let before = events.drop_last();
    lemma_possible_drop_last(Session::Upgrading, events);
    lemma_deliveries(before);
    lemma_deliveries(events);
    if before.len() > 0 {
        assert(before.last() == events[events.len() - 2]);
    } else {
        assert(received(before) =~= Seq::empty());
    }
    assert(delivered(events) =~= received(events).take(delivered(events).len() as int));
}

/// Which events can follow is decided by what happened last.
pub proof fn events_follow_each_other(events: Seq<EventView>, event: EventView)
    requires
        possible(Session::Upgrading, events.push(event)),
    ensures
        possible(Session::Upgrading, events),
        event is Upgraded || event is UpgradeFailed <==> events.len() == 0,
        event is Received || event is Lagged || event is Closed <==> events.len() > 0 && (
        events.last() is Upgraded || events.last() is Delivered),
        event is Delivered || event is DeliveryFailed <==> events.len() > 0
            && events.last() is Received,
{
    lemma_possible_drop_last(Session::Upgrading, events.push(event));
    assert(events.push(event).drop_last() =~= events);
}

} // verus!
