//! A server that passes changes of a buffer on to its clients, without a renderer.

use hyper::header::{HeaderMap, HeaderValue};
use tokio::sync::broadcast::error::SendError;
use tokio::sync::broadcast::{Receiver, Sender};
use vstd::prelude::*;
use vstd::utf8::encode_utf8;

use crate::channel::{opened, published, sent, subscribed, Feed, Outbox, CAPACITY};
use crate::handshake::{demand, demand_in, is_upgrade, Demand, DemandView};
use crate::headers::header_fields;
use crate::page::{
    contains_text, list_fields, page, strings_view, template_rendering, text_fields, TemplateData,
    MARKDOWN_VIEW,
};
use crate::response::{accept_key, has_legal_headers, ok_view, Response};
use crate::service::{
    lemma_handshake_headers, show_page, shows_page, upgrade, upgrades, Reply,
    WebsocketBroadcastService,
};
use crate::session::{
    client_gets_what_arrives, delivered, possible, reached, received, EventView, Session,
};

verus! {

/// A place in a buffer.
#[derive(Debug)]
pub struct Position {
    pub line: usize,
    pub character: usize,
}

/// A stretch of a buffer.
#[derive(Debug)]
pub struct Range {
    pub start: Position,
    pub end: Position,
}

/// A change of a buffer: new text for a stretch of it, or for the whole.
#[derive(Debug)]
pub struct Update {
    pub range: Option<Range>,
    pub text: String,
}

impl Clone for Position {
    fn clone(&self) -> (position: Self)
        ensures
            position == *self,
    {
        Position { line: self.line, character: self.character }
    }
}

impl Clone for Range {
    fn clone(&self) -> (range: Self)
        ensures
            range == *self,
    {
        Range { start: self.start.clone(), end: self.end.clone() }
    }
}

impl Clone for Update {
    fn clone(&self) -> (update: Self)
        ensures
            update == *self,
    {
        let range = match &self.range {
            Some(range) => Some(range.clone()),
            None => None,
        };
        Update { range, text: self.text.clone() }
    }
}

impl Update {
    /// The message that tells a client of the update. Only an update of the whole buffer has one.
    pub fn into_message(self) -> (message: String)
        requires
            self.range is None,
        ensures
            message@ == self.text@,
    {
        self.text
    }
}

/// Why a server could not be started.
#[derive(Debug)]
pub enum Error<E> {
    /// The HTTP server failed.
    Http(E),
}

/// Why a request could not be answered.
#[derive(Debug)]
pub enum RequestError {
    /// It asks for a WebSocket without the key that the handshake takes.
    MissingSecWebSocketKey,
}

/// A server that is bound to an address of type `A`.
pub struct Server<A> {
    local_addr: A,
    markdown_tx: Outbox<Update>,
}

/// Answers HTTP requests for a [`Server`].
pub struct Service {
    markdown_tx: Feed<Update>,
}

/// Greets whoever asks.
pub fn handle(_headers: &HeaderMap<HeaderValue>) -> (response: Response)
    ensures
        response@ == ok_view("Hello world"@),
        has_legal_headers(response@),
{
    Response::ok("Hello world".to_owned())
}

impl<A> Server<A> {
    /// The address that the server is bound to.
    pub closed spec fn spec_addr(self) -> A {
        self.local_addr
    }

    /// The channel over which the server publishes.
    pub closed spec fn channel(self) -> Sender<Update> {
        self.markdown_tx.channel()
    }

    /// The updates that the server has published, in order.
    pub closed spec fn log(self) -> Seq<Update> {
        self.markdown_tx.log()
    }

    /// Starts a server on an address that was bound, with a channel of its own. Where the address
    /// could not be bound, that is the error.
    pub fn bind<E>(bound: Result<A, E>) -> (server: Result<Self, Error<E>>)
        ensures
            match (bound, server) {
                (Ok(addr), Ok(server)) => {
                    &&& server.spec_addr() == addr
                    &&& opened(CAPACITY, server.channel())
                    &&& server.log() == Seq::<Update>::empty()
                },
                (Err(error), Err(Error::Http(cause))) => cause == error,
                _ => false,
            },
    {
        match bound {
            Ok(local_addr) => {
                Ok(Server { local_addr, markdown_tx: Outbox::open() })
            },
            Err(error) => Err(Error::Http(error)),
        }
    }

    /// Whether publishing `update` leaves the server as `after`.
    pub open spec fn publishes(self, update: Update, after: Self) -> bool {
        &&& published(self.channel(), update)
        &&& after.spec_addr() == self.spec_addr()
        &&& after.channel() == self.channel()
        &&& after.log() == self.log().push(update)
    }

    /// Passes an update on to the clients, if there are any.
    pub fn send(&mut self, update: Update)
        ensures
            old(self).publishes(update, *final(self)),
    {
        self.markdown_tx.send(update);
    }

    /// The address that the server is listening on.
    pub fn addr(&self) -> (addr: A) where A: Copy
        ensures
            addr == self.spec_addr(),
    {
        self.local_addr
    }

    /// The service that answers HTTP requests for this server: its WebSocket clients get what the
    /// server publishes.
    pub fn service(&self) -> (service: Service)
        ensures
            service.channel() == self.channel(),
    {
        Service { markdown_tx: self.markdown_tx.feed() }
    }
}

impl Clone for Service {
    /// A service for another connection, on the same channel.
    fn clone(&self) -> (service: Self)
        ensures
            service == *self,
    {
        Service { markdown_tx: self.markdown_tx.clone() }
    }
}

impl Service {
    /// The channel that the clients of the service are subscribed to.
    pub closed spec fn channel(self) -> Sender<Update> {
        self.markdown_tx.channel()
    }

    /// Whether `reply` is the answer of this service to a request that asks for `asked`.
    pub open spec fn answers(
        self,
        asked: DemandView,
        reply: Result<Reply<Update>, RequestError>,
    ) -> bool {
        match asked {
            DemandView::Upgrade(key) => reply matches Ok(reply) && upgrades(
                self.channel(),
                key,
                reply,
            ),
            DemandView::UpgradeWithoutKey => reply == Err::<Reply<Update>, RequestError>(
                RequestError::MissingSecWebSocketKey,
            ),
            DemandView::Page => reply matches Ok(reply) && shows_page(Seq::empty(), reply),
        }
    }

    /// Answers a request that asks for `asked`: a handshake with a key is completed, and to
    /// everything that is no handshake the page is shown, with nothing on it yet: what there is to
    /// see comes with the first update.
    pub fn answer(&self, asked: Demand) -> (reply: Result<Reply<Update>, RequestError>)
        ensures
            self.answers(asked@, reply),
            reply matches Ok(reply) ==> has_legal_headers(reply.response()@),
    {
        match asked {
            Demand::Upgrade(key) => Ok(upgrade(&self.markdown_tx, key.as_slice())),
            Demand::UpgradeWithoutKey => Err(RequestError::MissingSecWebSocketKey),
            Demand::Page => Ok(show_page(String::new())),
        }
    }

    /// Answers a request with these headers.
    pub fn respond(&self, headers: &HeaderMap<HeaderValue>) -> (reply: Result<
        Reply<Update>,
        RequestError,
    >)
        ensures
            self.answers(demand(header_fields(*headers)), reply),
            reply matches Ok(reply) ==> has_legal_headers(reply.response()@),
    {
        self.answer(demand_in(headers))
    }
}

/// What can happen to a server once it is bound.
pub enum Happening {
    /// A request is answered by one of its services.
    Request,
    /// An update is published.
    Send(Update),
}

/// Whether `what` can happen to the server `before` and leave it as `after`. Answering a request
/// takes a service, and leaves the server alone.
pub open spec fn happens<A>(before: Server<A>, what: Happening, after: Server<A>) -> bool {
    match what {
        Happening::Request => after == before,
        Happening::Send(update) => before.publishes(update, after),
    }
}

/// Whether a server can go through `states` while `events` happen to it.
pub open spec fn runs<A>(states: Seq<Server<A>>, events: Seq<Happening>) -> bool {
    &&& states.len() == events.len() + 1
    &&& forall|i: int|
        0 <= i < events.len() ==> happens(#[trigger] states[i], events[i], states[i + 1])
}

/// The updates that were given to a server with `events`, in order.
pub open spec fn given_updates(events: Seq<Happening>) -> Seq<Update>
    decreases events.len(),
{
    if events.len() == 0 {
        Seq::empty()
    } else {
        let before = given_updates(events.drop_last());
        match events.last() {
            Happening::Send(update) => before.push(update),
            Happening::Request => before,
        }
    }
}

/// The texts of updates.
pub open spec fn update_texts(updates: Seq<Update>) -> Seq<Seq<char>> {
    updates.map_values(|update: Update| update.text@)
}

/// Through all that happens to a server, it keeps its address and its channel, and what it has
/// sent stays in its account. What it sends are the updates that are given to it, in order, and
/// nothing else: requests send nothing, so a server to which no update was given has sent nothing.
pub proof fn only_sends_publish<A>(states: Seq<Server<A>>, events: Seq<Happening>)
    requires
        runs(states, events),
    ensures
        states.last().spec_addr() == states[0].spec_addr(),
        states.last().channel() == states[0].channel(),
        states.last().log() == states[0].log() + given_updates(events),
        forall|k: int|
            0 <= k < given_updates(events).len() ==> published(
                states[0].channel(),
                #[trigger] given_updates(events)[k],
            ),
    decreases events.len(),
{
    if events.len() > 0 {
        let n = events.len() - 1;
        let earlier = states.drop_last();
        assert forall|i: int| 0 <= i < events.drop_last().len() implies happens(
            #[trigger] earlier[i],
            events.drop_last()[i],
            earlier[i + 1],
        ) by {
            assert(happens(states[i], events[i], states[i + 1]));
        }
        only_sends_publish(earlier, events.drop_last());
        assert(happens(states[n], events[n], states[n + 1]));
    }
    assert(states.last().log() =~= states[0].log() + given_updates(events));
}

/// A client whose handshake was completed by a service of a server is subscribed to what that
/// server publishes.
pub proof fn clients_hear_the_server<A>(
    server: Server<A>,
    service: Service,
    key: Seq<u8>,
    reply: Result<Reply<Update>, RequestError>,
)
    requires
        service.channel() == server.channel(),
        service.answers(DemandView::Upgrade(key), reply),
    ensures
        reply matches Ok(Reply::Upgrade { response: _, updates }) && subscribed(
            server.channel(),
            updates,
        ),
{
}

/// A client gets exactly the texts of the updates that are given to the server from its handshake
/// on, word for word and in order, if the channel hands its connection what is sent there. Updates
/// of a part of the buffer have no message, and are left out.
pub proof fn client_gets_what_is_sent<A>(
    states: Seq<Server<A>>,
    happenings: Seq<Happening>,
    events: Seq<EventView>,
)
    requires
        runs(states, happenings),
        forall|k: int|
            0 <= k < given_updates(happenings).len() ==> (#[trigger] given_updates(
                happenings,
            )[k]).range is None,
        possible(Session::Upgrading, events),
        reached(Session::Upgrading, events) == Session::Receiving,
        received(events) == update_texts(
            states.last().log().skip(states[0].log().len() as int),
        ),
    ensures
        delivered(events) == update_texts(given_updates(happenings)),
{
    only_sends_publish(states, happenings);
    assert(states.last().log().skip(states[0].log().len() as int) =~= given_updates(happenings));
    client_gets_what_arrives(events);
}

/// Whoever does not ask for a WebSocket gets a page of HTML, and always the same.
pub proof fn page_is_shown(
    one: Service,
    other: Service,
    fields: Map<Seq<char>, Seq<Seq<u8>>>,
    other_fields: Map<Seq<char>, Seq<Seq<u8>>>,
    reply: Result<Reply<Update>, RequestError>,
    other_reply: Result<Reply<Update>, RequestError>,
)
    requires
        !is_upgrade(fields),
        !is_upgrade(other_fields),
        one.answers(demand(fields), reply),
        other.answers(demand(other_fields), other_reply),
    ensures
        reply is Ok,
        other_reply is Ok,
        reply->Ok_0.response()@.status == 200,
        contains_text(reply->Ok_0.response()@.body, "<html>"@),
        other_reply->Ok_0.response()@ == reply->Ok_0.response()@,
{
}

/// A request whose headers do not ask for a WebSocket is shown the page of a preview with nothing
/// on it: the one that [`page`] makes of data without style sheets, with the theme of GitHub and
/// without HTML.
pub proof fn plain_requests_get_an_empty_page(
    service: Service,
    headers: HeaderMap<HeaderValue>,
    reply: Result<Reply<Update>, RequestError>,
    data: TemplateData,
    body: String,
)
    requires
        !(header_fields(headers).contains_key("connection"@) && header_fields(
            headers,
        )["connection"@][0] == encode_utf8("Upgrade"@) && header_fields(headers).contains_key(
            "upgrade"@,
        ) && header_fields(headers)["upgrade"@][0] == encode_utf8("websocket"@)),
        call_ensures(Service::respond, (&service, &headers), reply),
        data.remote_custom_css@.len() == 0,
        data.local_custom_css@.len() == 0,
        data.highlight_theme@ == "github"@,
        data.markdown_html@.len() == 0,
        call_ensures(page, (data,), body),
    ensures
        reply matches Ok(Reply::Respond(response)) && {
            &&& response.status == 200
            &&& response.headers@.len() == 0
            &&& response.body@ == body@
            &&& response.body@ == template_rendering(
                MARKDOWN_VIEW@,
                seq![
                    ("remote_custom_css"@, Seq::<Seq<char>>::empty()),
                    ("local_custom_css"@, Seq::<Seq<char>>::empty()),
                ],
                seq![
                    ("highlight_theme"@, "github"@),
                    ("markdown_html"@, Seq::<char>::empty()),
                ],
            )
        },
{
    let response = reply->Ok_0.response();
    assert(response@.headers.len() == response.headers@.len());
    assert(data.markdown_html@ =~= Seq::empty());
    assert(strings_view(data.remote_custom_css@) =~= Seq::empty());
    assert(strings_view(data.local_custom_css@) =~= Seq::empty());
    assert(list_fields(data) =~= seq![
        ("remote_custom_css"@, Seq::<Seq<char>>::empty()),
        ("local_custom_css"@, Seq::<Seq<char>>::empty()),
    ]);
    assert(text_fields(data) =~= seq![
        ("highlight_theme"@, "github"@),
        ("markdown_html"@, Seq::<char>::empty()),
    ]);
}

/// A visitor sees the same page as with a server of markdown to which nothing was published.
pub proof fn page_is_that_of_a_silent_server(
    service: Service,
    markdown_service: WebsocketBroadcastService,
    html: String,
    reply: Result<Reply<Update>, RequestError>,
    other: Reply<String>,
)
    requires
        html@.len() == 0,
        call_ensures(Service::answer, (&service, Demand::Page), reply),
        call_ensures(
            WebsocketBroadcastService::answer,
            (&markdown_service, Demand::Page, html),
            other,
        ),
    ensures
        reply is Ok,
        reply->Ok_0.response()@ == other.response()@,
{
    assert(Demand::Page@ == DemandView::Page);
    assert(html@ =~= Seq::empty());
}

/// A handshake with a key is completed for that key, byte for byte, and the client is subscribed to
/// the channel of the service.
pub proof fn handshakes_are_completed(
    service: Service,
    headers: HeaderMap<HeaderValue>,
    reply: Result<Reply<Update>, RequestError>,
)
    requires
        header_fields(headers).contains_key("connection"@) && header_fields(
            headers,
        )["connection"@][0] == encode_utf8("Upgrade"@) && header_fields(headers).contains_key(
            "upgrade"@,
        ) && header_fields(headers)["upgrade"@][0] == encode_utf8("websocket"@),
        header_fields(headers).contains_key("sec-websocket-key"@),
        call_ensures(Service::respond, (&service, &headers), reply),
    ensures
        reply matches Ok(Reply::Upgrade { response, updates }) && {
            &&& response.status == 101
            &&& response.body@.len() == 0
            &&& response.headers@.len() == 3
            &&& response.headers@[0].0@ == "connection"@
            &&& response.headers@[0].1@ == "upgrade"@
            &&& response.headers@[1].0@ == "upgrade"@
            &&& response.headers@[1].1@ == "websocket"@
            &&& response.headers@[2].0@ == "sec-websocket-accept"@
            &&& response.headers@[2].1@ == accept_key(
                header_fields(headers)["sec-websocket-key"@][0],
            )
            &&& call_ensures(Sender::<Update>::subscribe, (&service.channel(),), updates)
        },
{
    lemma_handshake_headers(
        reply->Ok_0.response(),
        header_fields(headers)["sec-websocket-key"@][0],
    );
}

/// A request fails exactly if it is a handshake without a key.
pub proof fn only_handshakes_without_key_fail(
    service: Service,
    headers: HeaderMap<HeaderValue>,
    reply: Result<Reply<Update>, RequestError>,
)
    requires
        call_ensures(Service::respond, (&service, &headers), reply),
    ensures
        reply is Err <==> header_fields(headers).contains_key("connection"@) && header_fields(
                headers,
            )["connection"@][0] == encode_utf8("Upgrade"@) && header_fields(headers).contains_key(
                "upgrade"@,
            ) && header_fields(headers)["upgrade"@][0] == encode_utf8("websocket"@)
            && !header_fields(headers).contains_key("sec-websocket-key"@),
{
}

/// Whoever asks for a WebSocket with a key is answered for that key, byte for byte, and is
/// subscribed to the channel of the service; whoever has no key gets an error, and everyone else
/// the page.
pub proof fn demands_are_answered(
    service: Service,
    asked: Demand,
    reply: Result<Reply<Update>, RequestError>,
)
    requires
        call_ensures(Service::answer, (&service, asked), reply),
    ensures
        asked matches Demand::Upgrade(key) ==> (reply matches Ok(
            Reply::Upgrade { response, updates },
        ) && {
            &&& response.status == 101
            &&& response.headers@.len() == 3
            &&& response.headers@[2].0@ == "sec-websocket-accept"@
            &&& response.headers@[2].1@ == accept_key(key@)
            &&& call_ensures(Sender::<Update>::subscribe, (&service.channel(),), updates)
        }),
        asked is UpgradeWithoutKey <==> reply is Err,
        asked is Page ==> (reply matches Ok(Reply::Respond(response)) && response.status == 200),
{
    if let Demand::Upgrade(key) = asked {
        lemma_handshake_headers(reply->Ok_0.response(), key@);
    }
}

/// An update goes to the clients as it is, and nothing else does.
pub proof fn updates_are_published<A>(server: &mut Server<A>, update: Update)
    requires
        call_ensures(Server::<A>::send, (server, update), ()),
    ensures
        exists|outcome: Result<usize, SendError<Update>>| #[trigger]
            call_ensures(Sender::<Update>::send, (&old(server).channel(), update), outcome),
        final(server).spec_addr() == old(server).spec_addr(),
        final(server).channel() == old(server).channel(),
        final(server).log().len() == old(server).log().len() + 1,
        final(server).log().last() == update,
        final(server).log().drop_last() == old(server).log(),
{
    let outcome = choose|outcome: Result<usize, SendError<Update>>| sent(
        old(server).channel(),
        update,
        outcome,
    );
    assert(sent(old(server).channel(), update, outcome));
    assert(final(server).log().drop_last() =~= old(server).log());
}

/// A server starts exactly if its address could be bound, on that address, and with a channel for
/// sixteen messages through which nothing was sent. Otherwise the error is the one of binding.
pub proof fn server_starts_where_it_is_bound<A, E>(
    bound: Result<A, E>,
    server: Result<Server<A>, Error<E>>,
)
    requires
        call_ensures(Server::<A>::bind::<E>, (bound,), server),
    ensures
        server is Ok <==> bound is Ok,
        bound matches Ok(addr) ==> server->Ok_0.spec_addr() == addr,
        bound is Ok ==> server->Ok_0.log().len() == 0,
        bound is Ok ==> exists|rx: Receiver<Update>| #[trigger]
            call_ensures(
                tokio::sync::broadcast::channel::<Update>,
                (16usize,),
                (server->Ok_0.channel(), rx),
            ),
        bound matches Err(error) ==> server->Err_0 == Error::Http(error),
{
}

/// The address of a server, and the channel of its services, are its own.
pub proof fn services_are_those_of_the_server<A: Copy>(
    server: Server<A>,
    addr: A,
    service: Service,
    another: Service,
)
    requires
        call_ensures(Server::<A>::addr, (&server,), addr),
        call_ensures(Server::<A>::service, (&server,), service),
        call_ensures(<Service as Clone>::clone, (&service,), another),
    ensures
        addr == server.spec_addr(),
        service.channel() == server.channel(),
        another.channel() == server.channel(),
{
}

/// An update of the whole buffer has a message, and that is its text, word for word.
pub proof fn message_is_the_text(update: Update, message: String)
    ensures
        update.range is None ==> call_requires(Update::into_message, (update,)),
        call_ensures(Update::into_message, (update,), message) ==> message@ == update.text@,
{
}

/// A copy of an update says the same.
pub proof fn copies_say_the_same(update: Update, copy: Update)
    requires
        call_ensures(<Update as Clone>::clone, (&update,), copy),
    ensures
        copy.text@ == update.text@,
        copy.range is Some == update.range is Some,
        update.range is Some ==> {
            let (range, same) = (update.range->Some_0, copy.range->Some_0);
            &&& same.start.line == range.start.line
            &&& same.start.character == range.start.character
            &&& same.end.line == range.end.line
            &&& same.end.character == range.end.character
        },
{
}

/// Everyone is greeted alike.
pub proof fn everyone_is_greeted(headers: HeaderMap<HeaderValue>, response: Response)
    requires
        call_ensures(handle, (&headers,), response),
    ensures
        response.status == 200,
        response.headers@.len() == 0,
        response.body@ == "Hello world"@,
{
    assert(response@.headers.len() == response.headers@.len());
}

} // verus!
