//! What the headers of an HTTP request ask of the server.

use hyper::header::{HeaderMap, HeaderValue};
use vstd::prelude::*;
use vstd::utf8::encode_utf8;

use crate::headers::{
    bytes_view, first_value, header_fields, header_value, is_lower_case_name, same_bytes,
};

verus! {

/// What a request asks for.
pub enum Demand {
    /// To open a WebSocket, with the key of the client.
    Upgrade(Vec<u8>),
    /// To open a WebSocket, but without the key that the handshake takes.
    UpgradeWithoutKey,
    /// To see the page.
    Page,
}

/// What a [`Demand`] says.
pub enum DemandView {
    Upgrade(Seq<u8>),
    UpgradeWithoutKey,
    Page,
}

impl View for Demand {
    type V = DemandView;

    open spec fn view(&self) -> DemandView {
        match self {
            Demand::Upgrade(key) => DemandView::Upgrade(key@),
            Demand::UpgradeWithoutKey => DemandView::UpgradeWithoutKey,
            Demand::Page => DemandView::Page,
        }
    }
}

/// Whether the `Connection` and `Upgrade` headers of a request ask for a WebSocket: they are
/// `Upgrade` and `websocket`, to the letter.
pub open spec fn asks_for_websocket(connection: Option<Seq<u8>>, upgrade: Option<Seq<u8>>) -> bool {
    &&& connection == Some(encode_utf8("Upgrade"@))
    &&& upgrade == Some(encode_utf8("websocket"@))
}

/// What a request with the given `Connection`, `Upgrade` and `Sec-WebSocket-Key` headers asks for.
pub open spec fn demand_of(
    connection: Option<Seq<u8>>,
    upgrade: Option<Seq<u8>>,
    key: Option<Seq<u8>>,
) -> DemandView {
    if !asks_for_websocket(connection, upgrade) {
        DemandView::Page
    } else {
        match key {
            Some(key) => DemandView::Upgrade(key),
            None => DemandView::UpgradeWithoutKey,
        }
    }
}

/// Whether a request with the headers `fields` asks for a WebSocket. Of a header that stands
/// there more than once, the first value counts.
pub open spec fn is_upgrade(fields: Map<Seq<char>, Seq<Seq<u8>>>) -> bool {
    asks_for_websocket(first_value(fields, "connection"@), first_value(fields, "upgrade"@))
}

/// What a request with the headers `fields` asks for.
pub open spec fn demand(fields: Map<Seq<char>, Seq<Seq<u8>>>) -> DemandView {
    demand_of(
        first_value(fields, "connection"@),
        first_value(fields, "upgrade"@),
        first_value(fields, "sec-websocket-key"@),
    )
}

/// Whether `value` is there, and is `text`.
fn holds(value: &Option<Vec<u8>>, text: &str) -> (same: bool)
    ensures
        same == (bytes_view(*value) == Some(encode_utf8(text@))),
{
    match value {
        Some(bytes) => same_bytes(bytes.as_slice(), text.as_bytes()),
        None => false,
    }
}

/// Tells what a request with the given `Connection`, `Upgrade` and `Sec-WebSocket-Key` headers
/// asks for.
pub fn classify(
    connection: Option<Vec<u8>>,
    upgrade: Option<Vec<u8>>,
    key: Option<Vec<u8>>,
) -> (asked: Demand)
    ensures
        asked@ == demand_of(bytes_view(connection), bytes_view(upgrade), bytes_view(key)),
{
    if holds(&connection, "Upgrade") && holds(&upgrade, "websocket") {
        match key {
            Some(key) => Demand::Upgrade(key),
            None => Demand::UpgradeWithoutKey,
        }
    } else {
        Demand::Page
    }
}

/// The names under which the headers of the handshake are looked up are in lower case.
proof fn lemma_handshake_names()
    ensures
        is_lower_case_name("connection"@),
        is_lower_case_name("upgrade"@),
        is_lower_case_name("sec-websocket-key"@),
{
    reveal_strlit("connection");
    reveal_strlit("upgrade");
    reveal_strlit("sec-websocket-key");
}

/// Whether a request with these headers asks to open a WebSocket.
pub fn is_websocket_upgrade(headers: &HeaderMap<HeaderValue>) -> (asks: bool)
    ensures
        asks == is_upgrade(header_fields(*headers)),
{
    proof {
        lemma_handshake_names();
    }
    holds(&header_value(headers, "connection"), "Upgrade") && holds(
        &header_value(headers, "upgrade"),
        "websocket",
    )
}

/// Tells what a request with these headers asks for.
pub fn demand_in(headers: &HeaderMap<HeaderValue>) -> (asked: Demand)
    ensures
        asked@ == demand(header_fields(*headers)),
{
    proof {
        lemma_handshake_names();
    }
    classify(
        header_value(headers, "connection"),
        header_value(headers, "upgrade"),
        header_value(headers, "sec-websocket-key"),
    )
}

/// A request asks for the page exactly if it does not ask for a WebSocket, and it is taken for a
/// handshake with a key exactly if it asks for a WebSocket and has one.
pub proof fn demand_follows_upgrade(fields: Map<Seq<char>, Seq<Seq<u8>>>, key: Seq<u8>)
    ensures
        demand(fields) is Page == !is_upgrade(fields),
        demand(fields) == DemandView::Upgrade(key) <==> is_upgrade(fields) && first_value(
            fields,
            "sec-websocket-key"@,
        ) == Some(key),
{
}

/// A request asks for a WebSocket exactly if the first value of its `Connection` header is
/// `Upgrade` and the first value of its `Upgrade` header is `websocket`.
pub proof fn upgrade_is_told_by_two_headers(headers: HeaderMap<HeaderValue>, asks: bool)
    requires
        call_ensures(is_websocket_upgrade, (&headers,), asks),
    ensures
        asks <==> {
            let fields = header_fields(headers);
            &&& fields.contains_key("connection"@)
            &&& fields["connection"@][0] == encode_utf8("Upgrade"@)
            &&& fields.contains_key("upgrade"@)
            &&& fields["upgrade"@][0] == encode_utf8("websocket"@)
        },
{
}

/// Two requests whose `Connection` and `Upgrade` headers start alike both ask for a WebSocket or
/// both do not, whatever else stands in them.
pub proof fn no_other_header_matters(
    headers: HeaderMap<HeaderValue>,
    other_headers: HeaderMap<HeaderValue>,
    asked: Demand,
    other_asked: Demand,
)
    requires
        call_ensures(demand_in, (&headers,), asked),
        call_ensures(demand_in, (&other_headers,), other_asked),
        forall|name: Seq<char>|
            name == "connection"@ || name == "upgrade"@ ==> (#[trigger] header_fields(
                headers,
            ).contains_key(name)) == header_fields(other_headers).contains_key(name),
        forall|name: Seq<char>|
            (name == "connection"@ || name == "upgrade"@) && header_fields(headers).contains_key(
                name,
            ) ==> (#[trigger] header_fields(headers)[name])[0] == header_fields(
                other_headers,
            )[name][0],
    ensures
        asked is Page == other_asked is Page,
{
    let fields = header_fields(headers);
    let other_fields = header_fields(other_headers);
    assert(fields.contains_key("connection"@) == other_fields.contains_key("connection"@));
    assert(fields.contains_key("upgrade"@) == other_fields.contains_key("upgrade"@));
    if fields.contains_key("connection"@) {
        assert(fields["connection"@][0] == other_fields["connection"@][0]);
    }
    if fields.contains_key("upgrade"@) {
        assert(fields["upgrade"@][0] == other_fields["upgrade"@][0]);
    }
}

/// What a request is taken for: the page where it does not ask for a WebSocket, and otherwise a
/// handshake, with the first key that stands in it, byte for byte.
pub proof fn demand_is_told_by_the_headers(
    headers: HeaderMap<HeaderValue>,
    asks: bool,
    asked: Demand,
)
    requires
        call_ensures(is_websocket_upgrade, (&headers,), asks),
        call_ensures(demand_in, (&headers,), asked),
    ensures
        asked is Page <==> !asks,
        asked is Upgrade <==> asks && header_fields(headers).contains_key("sec-websocket-key"@),
        asked is UpgradeWithoutKey <==> asks && !header_fields(headers).contains_key(
            "sec-websocket-key"@,
        ),
        asked matches Demand::Upgrade(key) ==> key@ == header_fields(
            headers,
        )["sec-websocket-key"@][0],
{
}

/// The same of the values of the three headers.
pub proof fn demand_is_told_by_the_values(
    connection: Option<Vec<u8>>,
    upgrade: Option<Vec<u8>>,
    key: Option<Vec<u8>>,
    asked: Demand,
)
    requires
        call_ensures(classify, (connection, upgrade, key), asked),
    ensures
        asked is Page <==> !(connection is Some && upgrade is Some && connection->Some_0@
            == encode_utf8("Upgrade"@) && upgrade->Some_0@ == encode_utf8("websocket"@)),
        asked is Upgrade ==> key is Some && asked->Upgrade_0@ == key->Some_0@,
        asked is UpgradeWithoutKey ==> key is None,
{
}

} // verus!
