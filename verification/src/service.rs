//! The HTTP service: a page for browsers, and a WebSocket for the script on the page.

use hyper::header::{HeaderMap, HeaderValue};
use tokio::sync::broadcast::{Receiver, Sender};
use vstd::prelude::*;
use vstd::utf8::encode_utf8;

use crate::channel::{subscribed, Feed};
use crate::handshake::{demand, demand_in, is_upgrade, Demand, DemandView};
use crate::headers::header_fields;
use crate::page::{
    contains_text, list_fields, page, strings_view, template_rendering, text_fields, TemplateData,
    MARKDOWN_VIEW,
};
use crate::response::{
    accept_key, has_legal_headers, missing_key_view, ok_view, response_says_what_it_holds,
    switching_protocols_view, Response,
};

verus! {

/// The answer to a request.
#[verifier::reject_recursive_types(T)]
pub enum Reply<T> {
    /// Send the response.
    Respond(Response),
    /// Send the response, upgrade the connection, and pass on to the client what arrives from the
    /// channel. The subscription starts before the response goes out.
    Upgrade { response: Response, updates: Receiver<T> },
}

impl<T> Reply<T> {
    /// The response to send.
    pub open spec fn response(self) -> Response {
        match self {
            Reply::Respond(response) => response,
            Reply::Upgrade { response, updates: _ } => response,
        }
    }
}

/// The page that shows `html`, without style sheets of the user's and with the theme of GitHub.
pub open spec fn preview_page(html: Seq<char>) -> Seq<char> {
    template_rendering(
        MARKDOWN_VIEW@,
        seq![
            ("remote_custom_css"@, Seq::<Seq<char>>::empty()),
            ("local_custom_css"@, Seq::<Seq<char>>::empty()),
        ],
        seq![("highlight_theme"@, "github"@), ("markdown_html"@, html)],
    )
}

/// Whether `reply` is the answer to a client that completes the handshake with `key`, for the
/// channel of `tx`.
pub open spec fn upgrades<T>(tx: Sender<T>, key: Seq<u8>, reply: Reply<T>) -> bool {
    &&& reply matches Reply::Upgrade { response, updates }
    &&& response@ == switching_protocols_view(key)
    &&& subscribed(tx, updates)
}

/// Whether `reply` is the page that shows `html`. It is one of HTML, and contains `html`.
pub open spec fn shows_page<T>(html: Seq<char>, reply: Reply<T>) -> bool {
    &&& reply matches Reply::Respond(response)
    &&& response@ == ok_view(preview_page(html))
    &&& contains_text(preview_page(html), "<html>"@)
    &&& contains_text(preview_page(html), html)
}

/// Subscribes a client that completes the handshake with `key`.
pub(crate) fn upgrade<T>(feed: &Feed<T>, key: &[u8]) -> (reply: Reply<T>)
    ensures
        upgrades(feed.channel(), key@, reply),
        has_legal_headers(reply.response()@),
{
    let response = Response::switching_protocols(key);
    let updates = feed.subscribe();
    Reply::Upgrade { response, updates }
}

/// Shows the page with `html` on it.
pub(crate) fn show_page<T>(html: String) -> (reply: Reply<T>)
    ensures
        shows_page(html@, reply),
        has_legal_headers(reply.response()@),
{
    let mut data = TemplateData::default();
    data.markdown_html = html;
    assert(list_fields(data) =~= seq![
        ("remote_custom_css"@, Seq::<Seq<char>>::empty()),
        ("local_custom_css"@, Seq::<Seq<char>>::empty()),
    ]) by {
        assert(strings_view(data.remote_custom_css@) =~= Seq::empty());
        assert(strings_view(data.local_custom_css@) =~= Seq::empty());
    }
    assert(text_fields(data) =~= seq![("highlight_theme"@, "github"@), ("markdown_html"@, html@)]);
    Reply::Respond(Response::ok(page(data)))
}

/// Service that broadcasts received HTML to any listening WebSocket clients.
pub struct WebsocketBroadcastService {
    /// The channel over which the HTML comes.
    pub html_tx: Feed<String>,
}

impl Clone for WebsocketBroadcastService {
    /// A service for another connection, on the same channel.
    fn clone(&self) -> (service: Self)
        ensures
            service == *self,
    {
        WebsocketBroadcastService { html_tx: self.html_tx.clone() }
    }
}

impl WebsocketBroadcastService {
    /// Whether `reply` is the answer of this service to a request that asks for `asked`, where
    /// `html` is to be shown.
    pub open spec fn answers(
        self,
        asked: DemandView,
        html: Seq<char>,
        reply: Reply<String>,
    ) -> bool {
        match asked {
            DemandView::Upgrade(key) => upgrades(self.html_tx.channel(), key, reply),
            DemandView::UpgradeWithoutKey => reply matches Reply::Respond(response) && response@
                == missing_key_view(),
            DemandView::Page => shows_page(html, reply),
        }
    }

    /// Answers a request that asks for `asked`: a handshake with a key is completed and one
    /// without a key refused, and to everything else the page is shown, with `html` on it.
    pub fn answer(&self, asked: Demand, html: String) -> (reply: Reply<String>)
        ensures
            self.answers(asked@, html@, reply),
            has_legal_headers(reply.response()@),
    {
        match asked {
            Demand::Upgrade(key) => upgrade(&self.html_tx, key.as_slice()),
            Demand::UpgradeWithoutKey => Reply::Respond(Response::missing_key()),
            Demand::Page => show_page(html),
        }
    }

    /// Answers a request with these headers. `html` is the rendering that the page shows until
    /// the first message arrives.
    pub fn handle_request(&self, headers: &HeaderMap<HeaderValue>, html: String) -> (reply: Reply<
        String,
    >)
        ensures
            self.answers(demand(header_fields(*headers)), html@, reply),
            has_legal_headers(reply.response()@),
    {
        self.answer(demand_in(headers), html)
    }
}

/// A connection is upgraded exactly if the request is a handshake with a key, and the status of
/// the response tells which of the three answers it is.
pub proof fn status_tells_the_answer(
    service: WebsocketBroadcastService,
    asked: DemandView,
    html: Seq<char>,
    reply: Reply<String>,
)
    requires
        service.answers(asked, html, reply),
    ensures
        reply is Upgrade == asked is Upgrade,
        reply.response()@.status == 101 <==> asked is Upgrade,
        reply.response()@.status == 400 <==> asked is UpgradeWithoutKey,
        reply.response()@.status == 200 <==> asked is Page,
{
}

/// The same request gets the same response while the same HTML is to be shown, whichever service
/// answers it.
pub proof fn response_is_determined(
    one: WebsocketBroadcastService,
    other: WebsocketBroadcastService,
    asked: DemandView,
    html: Seq<char>,
    reply: Reply<String>,
    again: Reply<String>,
)
    requires
        one.answers(asked, html, reply),
        other.answers(asked, html, again),
    ensures
        reply.response()@ == again.response()@,
{
}

/// Whoever does not ask for a WebSocket gets a page of HTML, of status 200 and without headers,
/// and what is to be shown stands on it.
pub proof fn page_contains_the_html(
    service: WebsocketBroadcastService,
    fields: Map<Seq<char>, Seq<Seq<u8>>>,
    html: Seq<char>,
    reply: Reply<String>,
)
    requires
        !is_upgrade(fields),
        service.answers(demand(fields), html, reply),
    ensures
        reply is Respond,
        reply.response()@.status == 200,
        reply.response()@.headers == Seq::<(Seq<char>, Seq<char>)>::empty(),
        contains_text(reply.response()@.body, "<html>"@),
        contains_text(reply.response()@.body, html),
{
}

/// Whatever else two requests hold that do not ask for a WebSocket, they get the same page while
/// the same HTML is to be shown.
pub proof fn everyone_gets_the_same_page(
    one: WebsocketBroadcastService,
    other: WebsocketBroadcastService,
    fields: Map<Seq<char>, Seq<Seq<u8>>>,
    other_fields: Map<Seq<char>, Seq<Seq<u8>>>,
    html: Seq<char>,
    reply: Reply<String>,
    other_reply: Reply<String>,
)
    requires
        !is_upgrade(fields),
        !is_upgrade(other_fields),
        one.answers(demand(fields), html, reply),
        other.answers(demand(other_fields), html, other_reply),
    ensures
        reply.response()@.status == 200,
        reply.response()@ == other_reply.response()@,
{
}

/// A request whose headers do not ask for a WebSocket is shown the page, filled in with the HTML
/// as it is, without style sheets of the user's and with the theme of GitHub.
pub proof fn plain_requests_get_the_page(
    service: WebsocketBroadcastService,
    headers: HeaderMap<HeaderValue>,
    html: String,
    reply: Reply<String>,
)
    requires
        !(header_fields(headers).contains_key("connection"@) && header_fields(
            headers,
        )["connection"@][0] == encode_utf8("Upgrade"@) && header_fields(headers).contains_key(
            "upgrade"@,
        ) && header_fields(headers)["upgrade"@][0] == encode_utf8("websocket"@)),
        call_ensures(
            WebsocketBroadcastService::handle_request,
            (&service, &headers, html),
            reply,
        ),
    ensures
        reply matches Reply::Respond(response) && {
            &&& response.status == 200
            &&& response.headers@.len() == 0
            &&& response.body@ == template_rendering(
                MARKDOWN_VIEW@,
                seq![
                    ("remote_custom_css"@, Seq::<Seq<char>>::empty()),
                    ("local_custom_css"@, Seq::<Seq<char>>::empty()),
                ],
                seq![("highlight_theme"@, "github"@), ("markdown_html"@, html@)],
            )
        },
{
    assert(reply.response()@.headers.len() == reply.response().headers@.len());
}

/// The page that a service shows is the one for data that hold the HTML, and nothing more: it is
/// what [`page`] makes of them.
pub proof fn service_shows_the_page_of_the_html(
    service: WebsocketBroadcastService,
    html: String,
    reply: Reply<String>,
    data: TemplateData,
    body: String,
)
    requires
        call_ensures(WebsocketBroadcastService::answer, (&service, Demand::Page, html), reply),
        data.remote_custom_css@.len() == 0,
        data.local_custom_css@.len() == 0,
        data.highlight_theme@ == "github"@,
        data.markdown_html@ == html@,
        call_ensures(page, (data,), body),
    ensures
        reply matches Reply::Respond(response) && response.status == 200 && response.body@
            == body@,
{
    assert(Demand::Page@ == DemandView::Page);
    assert(strings_view(data.remote_custom_css@) =~= Seq::empty());
    assert(strings_view(data.local_custom_css@) =~= Seq::empty());
    assert(list_fields(data) =~= seq![
        ("remote_custom_css"@, Seq::<Seq<char>>::empty()),
        ("local_custom_css"@, Seq::<Seq<char>>::empty()),
    ]);
    assert(text_fields(data) =~= seq![("highlight_theme"@, "github"@), ("markdown_html"@, html@)]);
}

/// A handshake with a key is completed for that key, byte for byte, and the client is subscribed to
/// the channel of the service. What is to be shown does not matter.
pub proof fn handshakes_are_completed(
    service: WebsocketBroadcastService,
    headers: HeaderMap<HeaderValue>,
    html: String,
    reply: Reply<String>,
)
    requires
        header_fields(headers).contains_key("connection"@) && header_fields(
            headers,
        )["connection"@][0] == encode_utf8("Upgrade"@) && header_fields(headers).contains_key(
            "upgrade"@,
        ) && header_fields(headers)["upgrade"@][0] == encode_utf8("websocket"@),
        header_fields(headers).contains_key("sec-websocket-key"@),
        call_ensures(
            WebsocketBroadcastService::handle_request,
            (&service, &headers, html),
            reply,
        ),
    ensures
        reply matches Reply::Upgrade { response, updates } && {
            &&& response.status == 101
            &&& response.body@.len() == 0
            &&& response.headers@.len() == 3
            &&& response.headers@[0].0@ == "connection"@
            &&& response.headers@[0].1@ == "upgrade"@
            &&& response.headers@[1].0@ == "upgrade"@
            &&& response.headers@[1].1@ == "websocket"@
            &&& response.headers@[2].0@ == "sec-websocket-accept"@
            &&& response.headers@[2].1@ == accept_key(
                header_fields(headers)["sec-websocket-key"@][0],
            )
            &&& call_ensures(Sender::<String>::subscribe, (&service.html_tx.channel(),), updates)
        },
{
    lemma_handshake_headers(
        reply.response(),
        header_fields(headers)["sec-websocket-key"@][0],
    );
}

/// The headers of the response that completes a handshake.
pub(crate) proof fn lemma_handshake_headers(response: Response, key: Seq<u8>)
    requires
        response@ == switching_protocols_view(key),
    ensures
        response.headers@.len() == 3,
        response.headers@[0].0@ == "connection"@,
        response.headers@[0].1@ == "upgrade"@,
        response.headers@[1].0@ == "upgrade"@,
        response.headers@[1].1@ == "websocket"@,
        response.headers@[2].0@ == "sec-websocket-accept"@,
        response.headers@[2].1@ == accept_key(key),
{
    response_says_what_it_holds(response);
    assert(response@.headers[0].0 == response.headers@[0].0@);
    assert(response@.headers[1].0 == response.headers@[1].0@);
    assert(response@.headers[2].0 == response.headers@[2].0@);
}

/// A handshake without a key is refused as a bad request.
pub proof fn handshakes_without_key_are_refused(
    service: WebsocketBroadcastService,
    headers: HeaderMap<HeaderValue>,
    html: String,
    reply: Reply<String>,
)
    requires
        header_fields(headers).contains_key("connection"@) && header_fields(
            headers,
        )["connection"@][0] == encode_utf8("Upgrade"@) && header_fields(headers).contains_key(
            "upgrade"@,
        ) && header_fields(headers)["upgrade"@][0] == encode_utf8("websocket"@),
        !header_fields(headers).contains_key("sec-websocket-key"@),
        call_ensures(
            WebsocketBroadcastService::handle_request,
            (&service, &headers, html),
            reply,
        ),
    ensures
        reply matches Reply::Respond(response) && {
            &&& response.status == 400
            &&& response.headers@.len() == 0
            &&& response.body@ == "No \"Sec-WebSocket-Key\" header"@
        },
{
    assert(reply.response()@.headers.len() == reply.response().headers@.len());
}

/// The headers are read once: answering a request is answering what it asks for.
pub proof fn requests_are_answered_by_what_they_ask(
    service: WebsocketBroadcastService,
    headers: HeaderMap<HeaderValue>,
    asked: Demand,
    html: String,
    reply: Reply<String>,
    again: Reply<String>,
)
    requires
        call_ensures(demand_in, (&headers,), asked),
        call_ensures(WebsocketBroadcastService::answer, (&service, asked, html), reply),
        call_ensures(
            WebsocketBroadcastService::handle_request,
            (&service, &headers, html),
            again,
        ),
    ensures
        reply is Upgrade == again is Upgrade,
        reply.response()@ == again.response()@,
        reply.response()@.status == 101 <==> asked is Upgrade,
        reply.response()@.status == 400 <==> asked is UpgradeWithoutKey,
        reply.response()@.status == 200 <==> asked is Page,
{
}

/// Whoever asks for a WebSocket with a key is answered for that key, byte for byte, whatever else
/// stood in the request, and is subscribed to the channel of the service; whoever has no key is
/// refused.
pub proof fn demands_are_answered(
    service: WebsocketBroadcastService,
    asked: Demand,
    html: String,
    reply: Reply<String>,
)
    requires
        call_ensures(WebsocketBroadcastService::answer, (&service, asked, html), reply),
    ensures
        asked matches Demand::Upgrade(key) ==> (reply matches Reply::Upgrade {
            response,
            updates,
        } && {
            &&& response.status == 101
            &&& response.headers@.len() == 3
            &&& response.headers@[2].0@ == "sec-websocket-accept"@
            &&& response.headers@[2].1@ == accept_key(key@)
            &&& call_ensures(Sender::<String>::subscribe, (&service.html_tx.channel(),), updates)
        }),
        asked is UpgradeWithoutKey ==> (reply matches Reply::Respond(response)
            && response.status == 400),
        asked is Page ==> (reply matches Reply::Respond(response) && response.status == 200),
{
    if let Demand::Upgrade(key) = asked {
        lemma_handshake_headers(reply.response(), key@);
    }
}

/// The services for all connections are on the same channel.
pub proof fn services_share_a_channel(
    service: WebsocketBroadcastService,
    another: WebsocketBroadcastService,
)
    requires
        call_ensures(<WebsocketBroadcastService as Clone>::clone, (&service,), another),
    ensures
        another.html_tx.channel() == service.html_tx.channel(),
{
}

} // verus!
