//! The markdown preview server.

use tokio::sync::broadcast::error::SendError;
use tokio::sync::broadcast::{Receiver, Sender};
use vstd::prelude::*;
use vstd::utf8::{
    decode_utf8, encode_utf8, encode_utf8_decode_utf8, encode_utf8_valid_utf8, valid_utf8,
};

use crate::channel::{opened, published, sent, subscribed, Outbox, CAPACITY};
use crate::handshake::{Demand, DemandView};
use crate::page::{contains_text, page, strings_view, TemplateData};
use crate::renderer::{html_of, markdown_html, MarkdownRenderer, RenderError, Renderer};
use crate::service::{
    service_shows_the_page_of_the_html, Reply, WebsocketBroadcastService,
};
use crate::session::{
    client_gets_what_arrives, delivered, possible, reached, received, EventView, Session,
};

verus! {

/// Markdown preview server.
///
/// Renders the buffers that are published to it, and hands the HTML to the clients of its
/// services. `A` is the address that it is bound to, `R` the renderer.
pub struct Server<A, R> {
    local_addr: A,
    tx: Outbox<String>,
    renderer: R,
    html: String,
}

/// Why a buffer could not be published.
#[derive(Debug)]
pub enum Error<E> {
    /// The renderer failed.
    Renderer(E),
    /// The renderer gave something that cannot be sent.
    Output(RenderError),
}

impl<A, R> Server<A, R> {
    /// The address that the server is bound to.
    pub closed spec fn spec_addr(self) -> A {
        self.local_addr
    }

    /// The channel over which the server publishes.
    pub closed spec fn channel(self) -> Sender<String> {
        self.tx.channel()
    }

    /// The HTML that the server has published, in order.
    pub closed spec fn log(self) -> Seq<String> {
        self.tx.log()
    }

    /// The HTML that a visitor is to see: what was published last, and nothing before that.
    pub closed spec fn shown(self) -> Seq<char> {
        self.html@
    }

    /// The renderer of the server.
    pub closed spec fn renderer(self) -> R {
        self.renderer
    }
}

impl<A, R: Renderer> Server<A, R> {
    /// Starts a server on an address that was bound, with a channel of its own. Where the address
    /// could not be bound, the error comes back.
    pub fn bind<E>(bound: Result<A, E>, renderer: R) -> (server: Result<Self, E>)
        ensures
            match (bound, server) {
                (Ok(addr), Ok(server)) => {
                    &&& server.spec_addr() == addr
                    &&& server.renderer() == renderer
                    &&& opened(CAPACITY, server.channel())
                    &&& server.log() == Seq::<String>::empty()
                    &&& server.shown() == Seq::<char>::empty()
                },
                (Err(error), Err(back)) => back == error,
                _ => false,
            },
    {
        match bound {
            Ok(local_addr) => {
                Ok(Server { local_addr, tx: Outbox::open(), renderer, html: String::new() })
            },
            Err(error) => Err(error),
        }
    }

    /// The service that answers HTTP requests for this server: its WebSocket clients get what the
    /// server publishes.
    pub fn service(&self) -> (service: WebsocketBroadcastService)
        ensures
            service.html_tx.channel() == self.channel(),
    {
        WebsocketBroadcastService { html_tx: self.tx.feed() }
    }

    /// Returns the address that the server is listening on.
    pub fn addr(&self) -> (addr: A) where A: Copy
        ensures
            addr == self.spec_addr(),
    {
        self.local_addr
    }

    /// Returns the HTML that a visitor is to see: the last rendering that was published.
    pub fn shown_html(&self) -> (html: String)
        ensures
            html@ == self.shown(),
    {
        self.html.clone()
    }

    /// Whether publishing what a rendering came to, its output or its error, gives `result` and
    /// leaves the server as `after`. Output that is text is published, as one message, and shown
    /// from then on. Everything else is an error, and then nothing is published.
    pub open spec fn publishes_rendering(
        self,
        rendered: Result<Seq<u8>, R::Error>,
        result: Result<(), Error<R::Error>>,
        after: Self,
    ) -> bool {
        &&& after.spec_addr() == self.spec_addr()
        &&& after.channel() == self.channel()
        &&& after.renderer() == self.renderer()
        &&& match rendered {
            Ok(output) => if valid_utf8(output) {
                &&& result is Ok
                &&& after.log().len() == self.log().len() + 1
                &&& after.log() == self.log().push(after.log().last())
                &&& encode_utf8(after.log().last()@) == output
                &&& published(self.channel(), after.log().last())
                &&& after.shown() == after.log().last()@
            } else {
                &&& result == Err::<(), Error<R::Error>>(Error::Output(RenderError::NotUtf8))
                &&& after.log() == self.log()
                &&& after.shown() == self.shown()
            },
            Err(error) => {
                &&& result == Err::<(), Error<R::Error>>(Error::Renderer(error))
                &&& after.log() == self.log()
                &&& after.shown() == self.shown()
            },
        }
    }

    /// Whether publishing `buffer` can end in `result` and leave the server as `after`: a
    /// rendering of it by the renderer of the server was published.
    pub open spec fn publishes(
        self,
        buffer: Seq<char>,
        result: Result<(), Error<R::Error>>,
        after: Self,
    ) -> bool {
        exists|rendered: Result<Seq<u8>, R::Error>|
            self.renderer().renders(buffer, rendered) && #[trigger] self.publishes_rendering(
                rendered,
                result,
                after,
            )
    }

    /// Publishes what a rendering came to: the output of the renderer, or its error.
    pub fn publish(&mut self, rendered: Result<Vec<u8>, R::Error>) -> (result: Result<
        (),
        Error<R::Error>,
    >)
        ensures
            old(self).publishes_rendering(
                match rendered {
                    Ok(output) => Ok(output@),
                    Err(error) => Err(error),
                },
                result,
                *final(self),
            ),
    {
        match rendered {
            Ok(output) => match html_of(output) {
                Ok(html) => {
                    proof {
                        encode_utf8_valid_utf8(html@);
                    }
                    self.tx.send(html.clone());
                    self.html = html;
                    Ok(())
                },
                Err(error) => Err(Error::Output(error)),
            },
            Err(error) => Err(Error::Renderer(error)),
        }
    }

    /// Publish a new buffer to be rendered by the server.
    ///
    /// The buffer is rendered with the configured renderer and then broadcast to all connected
    /// WebSocket clients. That there are none is no error.
    ///
    /// Returns errors from the underlying renderer.
    pub fn send(&mut self, buffer: &str) -> (result: Result<(), Error<R::Error>>)
        ensures
            old(self).publishes(buffer@, result, *final(self)),
    {
        let mut output: Vec<u8> = Vec::with_capacity(buffer.len());
        match self.renderer.render(buffer, &mut output) {
            Ok(()) => {
                assert(output@.skip(0) =~= output@);
                self.publish(Ok(output))
            },
            Err(error) => self.publish(Err(error)),
        }
    }
}

/// Whether all that the server accounts for was sent through its channel, and the last of it is
/// what a visitor is to see.
pub open spec fn accounts_for_the_channel<A, R>(server: Server<A, R>) -> bool {
    &&& forall|i: int|
        0 <= i < server.log().len() ==> published(server.channel(), #[trigger] server.log()[i])
    &&& server.shown() == if server.log().len() == 0 {
        Seq::<char>::empty()
    } else {
        server.log().last()@
    }
}

/// The account of a server stays true whatever is published, and whether or not that succeeds;
/// and nothing is ever struck from it. It is true of a server that was just bound, which has
/// published nothing and shows nothing.
pub proof fn account_is_kept<A, R: Renderer>(
    before: Server<A, R>,
    buffer: Seq<char>,
    result: Result<(), Error<R::Error>>,
    after: Server<A, R>,
)
    requires
        before.publishes(buffer, result, after),
    ensures
        before.log() == Seq::<String>::empty() && before.shown() == Seq::<char>::empty()
            ==> accounts_for_the_channel(before),
        accounts_for_the_channel(before) ==> accounts_for_the_channel(after),
        before.log().is_prefix_of(after.log()),
        after.log().len() == before.log().len() + if result is Ok {
            1int
        } else {
            0
        },
{
    assert(before.log().is_prefix_of(before.log()));
    if result is Ok {
        let last = after.log().last();
        assert(before.log().is_prefix_of(before.log().push(last)));
        if accounts_for_the_channel(before) {
            assert forall|i: int| 0 <= i < after.log().len() implies published(
                after.channel(),
                #[trigger] after.log()[i],
            ) by {
                if i < before.log().len() {
                    assert(after.log()[i] == before.log()[i]);
                }
            }
        }
    }
}

/// Publishing markdown always succeeds; what goes to the clients, and what a visitor is to see
/// from then on, is the HTML of the buffer.
pub proof fn markdown_is_published<A>(
    before: Server<A, MarkdownRenderer>,
    buffer: Seq<char>,
    result: Result<(), Error<std::io::Error>>,
    after: Server<A, MarkdownRenderer>,
)
    requires
        before.publishes(buffer, result, after),
    ensures
        result is Ok,
        after.log().len() == before.log().len() + 1,
        after.log().drop_last() == before.log(),
        after.log().last()@ == markdown_html(buffer),
        published(before.channel(), after.log().last()),
        after.shown() == markdown_html(buffer),
{
    encode_utf8_valid_utf8(markdown_html(buffer));
    encode_utf8_decode_utf8(markdown_html(buffer));
    encode_utf8_decode_utf8(after.log().last()@);
    assert(after.log().drop_last() =~= before.log());
}

/// Once a markdown buffer has been published, the page that a visitor gets contains its
/// rendering.
pub proof fn visitor_sees_what_was_sent<A>(
    before: Server<A, MarkdownRenderer>,
    buffer: Seq<char>,
    result: Result<(), Error<std::io::Error>>,
    after: Server<A, MarkdownRenderer>,
    service: WebsocketBroadcastService,
    reply: Reply<String>,
)
    requires
        before.publishes(buffer, result, after),
        service.answers(DemandView::Page, after.shown(), reply),
    ensures
        reply is Respond,
        reply.response()@.status == 200,
        contains_text(reply.response()@.body, "<html>"@),
        contains_text(reply.response()@.body, markdown_html(buffer)),
{
    markdown_is_published(before, buffer, result, after);
}

/// What can happen to a server once it is bound.
pub enum Happening<E> {
    /// A request is answered by one of its services.
    Request,
    /// A buffer is published, with that result.
    Send(Seq<char>, Result<(), Error<E>>),
}

/// Whether `what` can happen to the server `before` and leave it as `after`. Answering a request
/// takes a service and the HTML that is to be shown, and leaves the server alone.
pub open spec fn happens<A, R: Renderer>(
    before: Server<A, R>,
    what: Happening<R::Error>,
    after: Server<A, R>,
) -> bool {
    match what {
        Happening::Request => after == before,
        Happening::Send(buffer, result) => before.publishes(buffer, result, after),
    }
}

/// Whether a server can go through `states` while `events` happen to it.
pub open spec fn runs<A, R: Renderer>(
    states: Seq<Server<A, R>>,
    events: Seq<Happening<R::Error>>,
) -> bool {
    &&& states.len() == events.len() + 1
    &&& forall|i: int|
        0 <= i < events.len() ==> happens(#[trigger] states[i], events[i], states[i + 1])
}

/// The buffers that were given to a server with `events`, in order.
pub open spec fn given_buffers<E>(events: Seq<Happening<E>>) -> Seq<Seq<char>>
    decreases events.len(),
{
    if events.len() == 0 {
        Seq::empty()
    } else {
        let before = given_buffers(events.drop_last());
        match events.last() {
            Happening::Send(buffer, _) => before.push(buffer),
            Happening::Request => before,
        }
    }
}

/// The buffers that were published with `events`, in order: those that were given to the server
/// and gave no error.
pub open spec fn published_buffers<E>(events: Seq<Happening<E>>) -> Seq<Seq<char>>
    decreases events.len(),
{
    if events.len() == 0 {
        Seq::empty()
    } else {
        let before = published_buffers(events.drop_last());
        match events.last() {
            Happening::Send(buffer, Ok(())) => before.push(buffer),
            _ => before,
        }
    }
}

/// What a server has published between `before` and `after`.
pub open spec fn sent_since<A, R>(before: Server<A, R>, after: Server<A, R>) -> Seq<String> {
    after.log().skip(before.log().len() as int)
}

/// Whether `messages` are renderings of `buffers` by `renderer`, each of the buffer at its place.
pub open spec fn are_renderings<R: Renderer>(
    renderer: R,
    buffers: Seq<Seq<char>>,
    messages: Seq<String>,
) -> bool {
    &&& messages.len() == buffers.len()
    &&& forall|k: int|
        0 <= k < messages.len() ==> renderer.renders(
            buffers[k],
            Ok(encode_utf8((#[trigger] messages[k])@)),
        )
}

/// Through all that happens to a server, it keeps its address, its channel and its renderer, and
/// what it has sent stays in its account. What it sends is, in order, a rendering of each buffer
/// that was published without an error, one message for each, and the last of them is what a
/// visitor is to see. Requests and failures send nothing, so a server to which no buffer was given
/// has sent nothing.
pub proof fn only_sends_publish<A, R: Renderer>(
    states: Seq<Server<A, R>>,
    events: Seq<Happening<R::Error>>,
)
    requires
        runs(states, events),
    ensures
        states.last().spec_addr() == states[0].spec_addr(),
        states.last().channel() == states[0].channel(),
        states.last().renderer() == states[0].renderer(),
        states.last().log() == states[0].log() + sent_since(states[0], states.last()),
        are_renderings(
            states[0].renderer(),
            published_buffers(events),
            sent_since(states[0], states.last()),
        ),
        forall|k: int|
            0 <= k < sent_since(states[0], states.last()).len() ==> published(
                states[0].channel(),
                #[trigger] sent_since(states[0], states.last())[k],
            ),
        states.last().shown() == if published_buffers(events).len() == 0 {
            states[0].shown()
        } else {
            sent_since(states[0], states.last()).last()@
        },
    decreases events.len(),
{
    let first = states[0];
    let last = states.last();
    if events.len() > 0 {
        let n = events.len() - 1;
        let earlier = states.drop_last();
        let before = states[n];
        assert forall|i: int| 0 <= i < events.drop_last().len() implies happens(
            #[trigger] earlier[i],
            events.drop_last()[i],
            earlier[i + 1],
        ) by {
            assert(happens(states[i], events[i], states[i + 1]));
        }
        only_sends_publish(earlier, events.drop_last());
        assert(happens(states[n], events[n], states[n + 1]));
        if let Happening::Send(buffer, result) = events.last() {
            let rendered = choose|rendered: Result<Seq<u8>, R::Error>|
                before.renderer().renders(buffer, rendered)
                    && #[trigger] before.publishes_rendering(rendered, result, last);
            if result is Ok {
                let message = last.log().last();
                assert(rendered == Ok::<Seq<u8>, R::Error>(encode_utf8(message@)));
                assert(sent_since(first, last) =~= sent_since(first, before).push(message));
            }
        }
    }
    assert(last.log() =~= first.log() + sent_since(first, last));
}

/// A server of markdown sends, in order, the HTML of each buffer that is given to it, and nothing
/// else.
pub proof fn every_markdown_buffer_is_published<A>(
    states: Seq<Server<A, MarkdownRenderer>>,
    events: Seq<Happening<std::io::Error>>,
)
    requires
        runs(states, events),
    ensures
        published_buffers(events) == given_buffers(events),
        strings_view(sent_since(states[0], states.last())) == given_buffers(events).map_values(
            |buffer: Seq<char>| markdown_html(buffer),
        ),
    decreases events.len(),
{
    only_sends_publish(states, events);
    let messages = sent_since(states[0], states.last());
    let buffers = published_buffers(events);
    assert forall|k: int| 0 <= k < messages.len() implies (#[trigger] messages[k])@
        == markdown_html(buffers[k]) by {
        encode_utf8_decode_utf8(messages[k]@);
        encode_utf8_decode_utf8(markdown_html(buffers[k]));
    }
    if events.len() > 0 {
        let n = events.len() - 1;
        let earlier = states.drop_last();
        assert forall|i: int| 0 <= i < events.drop_last().len() implies happens(
            #[trigger] earlier[i],
            events.drop_last()[i],
            earlier[i + 1],
        ) by {
            assert(happens(states[i], events[i], states[i + 1]));
        }
        every_markdown_buffer_is_published(earlier, events.drop_last());
        assert(happens(states[n], events[n], states[n + 1]));
        if let Happening::Send(buffer, result) = events.last() {
            markdown_is_published(states[n], buffer, result, states[n + 1]);
        }
    }
    assert(strings_view(messages) =~= given_buffers(events).map_values(
        |buffer: Seq<char>| markdown_html(buffer),
    ));
}

/// A client whose handshake was completed by a service of a server is subscribed to what that
/// server publishes.
pub proof fn clients_hear_the_server<A, R>(
    server: Server<A, R>,
    service: WebsocketBroadcastService,
    key: Seq<u8>,
    html: Seq<char>,
    reply: Reply<String>,
)
    requires
        service.html_tx.channel() == server.channel(),
        service.answers(DemandView::Upgrade(key), html, reply),
    ensures
        reply matches Reply::Upgrade { response: _, updates } && subscribed(
            server.channel(),
            updates,
        ),
{
}

/// A client gets exactly what is published after its handshake, word for word and in order, if
/// the channel hands its connection what is sent there: whatever happened to the connection on
/// the way, once it waits for more it has passed all of it on.
pub proof fn client_gets_what_is_sent<A, R>(
    at_handshake: Server<A, R>,
    later: Server<A, R>,
    events: Seq<EventView>,
)
    requires
        at_handshake.log().is_prefix_of(later.log()),
        possible(Session::Upgrading, events),
        reached(Session::Upgrading, events) == Session::Receiving,
        received(events) == strings_view(sent_since(at_handshake, later)),
    ensures
        delivered(events) == strings_view(sent_since(at_handshake, later)),
{
    client_gets_what_arrives(events);
}

/// A client of a server of markdown gets, in order, the HTML of each buffer that is given to the
/// server from the handshake on, and nothing else, if the channel hands its connection what is
/// sent there.
pub proof fn client_gets_the_html_of_each_buffer<A>(
    states: Seq<Server<A, MarkdownRenderer>>,
    happenings: Seq<Happening<std::io::Error>>,
    events: Seq<EventView>,
)
    requires
        runs(states, happenings),
        possible(Session::Upgrading, events),
        reached(Session::Upgrading, events) == Session::Receiving,
        received(events) == strings_view(sent_since(states[0], states.last())),
    ensures
        delivered(events) == given_buffers(happenings).map_values(
            |buffer: Seq<char>| markdown_html(buffer),
        ),
{
    only_sends_publish(states, happenings);
    every_markdown_buffer_is_published(states, happenings);
    client_gets_what_is_sent(states[0], states.last(), events);
}

/// A server starts exactly if its address could be bound, on that address, with that renderer, and
/// with a channel for sixteen messages through which nothing was sent. Until something is, there
/// is nothing to see. Otherwise the error is the one of binding.
pub proof fn server_starts_where_it_is_bound<A, R: Renderer, E>(
    bound: Result<A, E>,
    renderer: R,
    server: Result<Server<A, R>, E>,
)
    requires
        call_ensures(Server::<A, R>::bind::<E>, (bound, renderer), server),
    ensures
        server is Ok <==> bound is Ok,
        bound matches Ok(addr) ==> server->Ok_0.spec_addr() == addr,
        bound is Ok ==> server->Ok_0.renderer() == renderer,
        bound is Ok ==> server->Ok_0.log().len() == 0,
        bound is Ok ==> server->Ok_0.shown().len() == 0,
        bound is Ok ==> exists|rx: Receiver<String>| #[trigger]
            call_ensures(
                tokio::sync::broadcast::channel::<String>,
                (16usize,),
                (server->Ok_0.channel(), rx),
            ),
        bound matches Err(error) ==> server->Err_0 == error,
{
}

/// The address of a server, the channel of its services, and what it shows are its own.
pub proof fn services_are_those_of_the_server<A: Copy, R: Renderer>(
    server: Server<A, R>,
    addr: A,
    service: WebsocketBroadcastService,
    html: String,
)
    requires
        call_ensures(Server::<A, R>::addr, (&server,), addr),
        call_ensures(Server::<A, R>::service, (&server,), service),
        call_ensures(Server::<A, R>::shown_html, (&server,), html),
    ensures
        addr == server.spec_addr(),
        service.html_tx.channel() == server.channel(),
        html@ == server.shown(),
{
}

/// Publishing what a rendering came to succeeds exactly if it is text. That text is then sent
/// through the channel, once and word for word, and is what a visitor is to see.
pub proof fn renderings_are_published<A, R: Renderer>(
    server: &mut Server<A, R>,
    rendered: Result<Vec<u8>, R::Error>,
    result: Result<(), Error<R::Error>>,
)
    requires
        call_ensures(Server::<A, R>::publish, (server, rendered), result),
    ensures
        result is Ok <==> rendered is Ok && valid_utf8(rendered->Ok_0@),
        result is Ok ==> {
            let message = final(server).log().last();
            &&& message@ == decode_utf8(rendered->Ok_0@)
            &&& exists|outcome: Result<usize, SendError<String>>| #[trigger]
                call_ensures(Sender::<String>::send, (&old(server).channel(), message), outcome)
            &&& final(server).log().len() == old(server).log().len() + 1
            &&& final(server).log().drop_last() == old(server).log()
            &&& final(server).shown() == message@
        },
        final(server).spec_addr() == old(server).spec_addr(),
        final(server).channel() == old(server).channel(),
        final(server).renderer() == old(server).renderer(),
{
    if result is Ok {
        let message = final(server).log().last();
        encode_utf8_decode_utf8(message@);
        let outcome = choose|outcome: Result<usize, SendError<String>>| sent(
            old(server).channel(),
            message,
            outcome,
        );
        assert(sent(old(server).channel(), message, outcome));
        assert(final(server).log().drop_last() =~= old(server).log());
    }
}

/// A rendering that failed is reported with the error of the renderer, and output that is no text
/// as such. Nothing is published then, and a visitor sees what there was before.
pub proof fn failures_publish_nothing<A, R: Renderer>(
    server: &mut Server<A, R>,
    rendered: Result<Vec<u8>, R::Error>,
    result: Result<(), Error<R::Error>>,
)
    requires
        call_ensures(Server::<A, R>::publish, (server, rendered), result),
        result is Err,
    ensures
        rendered matches Err(error) ==> result->Err_0 == Error::Renderer(error),
        rendered is Ok ==> result->Err_0 == Error::<R::Error>::Output(RenderError::NotUtf8),
        final(server).log() == old(server).log(),
        final(server).shown() == old(server).shown(),
{
}

/// Sending a buffer succeeds only with a rendering of that buffer, which is then the last message
/// and what a visitor is to see, and fails only with an error of its rendering, or with output that
/// is no text; then nothing was published.
pub proof fn buffers_are_rendered_and_published<A, R: Renderer>(
    server: &mut Server<A, R>,
    buffer: &str,
    result: Result<(), Error<R::Error>>,
)
    requires
        call_ensures(Server::<A, R>::send, (server, buffer), result),
    ensures
        final(server).spec_addr() == old(server).spec_addr(),
        final(server).channel() == old(server).channel(),
        final(server).renderer() == old(server).renderer(),
        match result {
            Ok(()) => {
                let message = final(server).log().last();
                &&& old(server).renderer().renders(buffer@, Ok(encode_utf8(message@)))
                &&& exists|outcome: Result<usize, SendError<String>>| #[trigger]
                    call_ensures(
                        Sender::<String>::send,
                        (&old(server).channel(), message),
                        outcome,
                    )
                &&& final(server).log() == old(server).log().push(message)
                &&& final(server).shown() == message@
            },
            Err(error) => {
                &&& match error {
                    Error::Renderer(error) => old(server).renderer().renders(buffer@, Err(error)),
                    Error::Output(_) => exists|output: Seq<u8>|
                        !(#[trigger] valid_utf8(output)) && old(server).renderer().renders(
                            buffer@,
                            Ok(output),
                        ),
                }
                &&& final(server).log() == old(server).log()
                &&& final(server).shown() == old(server).shown()
            },
        },
{
    let rendered = choose|rendered: Result<Seq<u8>, R::Error>|
        old(server).renderer().renders(buffer@, rendered) && #[trigger] old(
            server,
        ).publishes_rendering(rendered, result, *final(server));
    if result is Ok {
        let message = final(server).log().last();
        let outcome = choose|outcome: Result<usize, SendError<String>>| sent(
            old(server).channel(),
            message,
            outcome,
        );
        assert(sent(old(server).channel(), message, outcome));
        assert(rendered == Ok::<Seq<u8>, R::Error>(encode_utf8(message@)));
    } else if rendered is Ok {
        assert(!valid_utf8(rendered->Ok_0));
    }
}

/// Whatever buffer is given to a server of markdown, its HTML is sent, once, and a request that
/// does not ask for a WebSocket is then answered with the page of that HTML.
pub proof fn markdown_goes_to_clients_and_visitors<A>(
    server: &mut Server<A, MarkdownRenderer>,
    buffer: &str,
    result: Result<(), Error<std::io::Error>>,
    service: WebsocketBroadcastService,
    html: String,
    reply: Reply<String>,
    data: TemplateData,
    body: String,
)
    requires
        call_ensures(Server::<A, MarkdownRenderer>::send, (server, buffer), result),
        call_ensures(Server::<A, MarkdownRenderer>::shown_html, (&*final(server),), html),
        call_ensures(WebsocketBroadcastService::answer, (&service, Demand::Page, html), reply),
        data.remote_custom_css@.len() == 0,
        data.local_custom_css@.len() == 0,
        data.highlight_theme@ == "github"@,
        data.markdown_html@ == markdown_html(buffer@),
        call_ensures(page, (data,), body),
    ensures
        result is Ok,
        final(server).log().len() == old(server).log().len() + 1,
        final(server).log().last()@ == markdown_html(buffer@),
        html@ == markdown_html(buffer@),
        reply matches Reply::Respond(response) && response.status == 200 && response.body@
            == body@,
{
    markdown_is_published(*old(server), buffer@, result, *final(server));
    service_shows_the_page_of_the_html(service, html, reply, data, body);
}

/// The buffers that were given to a server, and those that were published, grow with each buffer
/// that is sent; requests add none.
pub proof fn buffers_are_counted_as_they_come<E>(
    events: Seq<Happening<E>>,
    buffer: Seq<char>,
    result: Result<(), Error<E>>,
)
    ensures
        given_buffers(Seq::<Happening<E>>::empty()) == Seq::<Seq<char>>::empty(),
        published_buffers(Seq::<Happening<E>>::empty()) == Seq::<Seq<char>>::empty(),
        given_buffers(events.push(Happening::Request)) == given_buffers(events),
        published_buffers(events.push(Happening::Request)) == published_buffers(events),
        given_buffers(events.push(Happening::Send(buffer, result))) == given_buffers(events).push(
            buffer,
        ),
        result is Ok ==> published_buffers(events.push(Happening::Send(buffer, result)))
            == published_buffers(events).push(buffer),
        result is Err ==> published_buffers(events.push(Happening::Send(buffer, result)))
            == published_buffers(events),
{
    assert(events.push(Happening::Request).drop_last() =~= events);
    assert(events.push(Happening::Send(buffer, result)).drop_last() =~= events);
}

} // verus!
