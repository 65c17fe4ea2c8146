//! The responses that the server gives to HTTP requests.

use async_tungstenite::tungstenite::error::ProtocolError;
use async_tungstenite::tungstenite::handshake::derive_accept_key;
use vstd::prelude::*;

use crate::headers::is_lower_case_name;

verus! {

/// An HTTP response: a status code, headers in the order in which they are added, and a body.
#[derive(Debug)]
pub struct Response {
    pub status: u16,
    pub headers: Vec<(String, String)>,
    pub body: String,
}

/// What a [`Response`] says.
pub struct ResponseView {
    pub status: u16,
    pub headers: Seq<(Seq<char>, Seq<char>)>,
    pub body: Seq<char>,
}

impl View for Response {
    type V = ResponseView;

    open spec fn view(&self) -> ResponseView {
        ResponseView {
            status: self.status,
            headers: self.headers@.map_values(|header: (String, String)| (header.0@, header.1@)),
            body: self.body@,
        }
    }
}

/// The accept key of the WebSocket handshake that answers the given request key, as
/// `derive_accept_key` computes it.
pub uninterp spec fn accept_key(request_key: Seq<u8>) -> Seq<char>;

/// Whether `c` is a character of the standard base64 alphabet, or its padding.
pub open spec fn is_base64_char(c: char) -> bool {
    ||| 'A' <= c <= 'Z'
    ||| 'a' <= c <= 'z'
    ||| '0' <= c <= '9'
    ||| c == '+'
    ||| c == '/'
    ||| c == '='
}

/// `derive_accept_key` of tungstenite: the accept key is a function of the request key. It is the
/// base64 text of the twenty bytes of a SHA-1 digest, hence its length and its characters.
pub assume_specification[ derive_accept_key ](request_key: &[u8]) -> (key: String)
    ensures
        key@ == accept_key(request_key@),
        key@.len() == 28,
        forall|i: int| 0 <= i < key@.len() ==> is_base64_char(#[trigger] key@[i]),
;

/// The text of `ProtocolError::MissingSecWebSocketKey`, the error of tungstenite for a handshake
/// without a key.
#[verifier::external_body]
fn missing_key_message() -> (message: String)
    ensures
        message@ == "No \"Sec-WebSocket-Key\" header"@,
{
    ProtocolError::MissingSecWebSocketKey.to_string()
}

/// Whether `value` is made of printable ASCII characters alone, as the value of a header is.
pub open spec fn is_printable(value: Seq<char>) -> bool {
    forall|i: int| 0 <= i < value.len() ==> ' ' <= #[trigger] value[i] <= '~'
}

/// Whether every header of `response` has a name and a value that HTTP allows.
pub open spec fn has_legal_headers(response: ResponseView) -> bool {
    forall|i: int|
        0 <= i < response.headers.len() ==> is_lower_case_name(
            (#[trigger] response.headers[i]).0,
        ) && is_printable(response.headers[i].1)
}

/// The response that completes the handshake with a client that sent `request_key`.
pub open spec fn switching_protocols_view(request_key: Seq<u8>) -> ResponseView {
    ResponseView {
        status: 101,
        headers: seq![
            ("connection"@, "upgrade"@),
            ("upgrade"@, "websocket"@),
            ("sec-websocket-accept"@, accept_key(request_key)),
        ],
        body: Seq::empty(),
    }
}

/// The response to a handshake without a key.
pub open spec fn missing_key_view() -> ResponseView {
    ResponseView {
        status: 400,
        headers: Seq::empty(),
        body: "No \"Sec-WebSocket-Key\" header"@,
    }
}

/// The response that carries `body`, and no headers of its own.
pub open spec fn ok_view(body: Seq<char>) -> ResponseView {
    ResponseView { status: 200, headers: Seq::empty(), body }
}

impl Response {
    /// Completes the handshake with a client that sent `request_key`: the connection is upgraded
    /// to a WebSocket.
    pub fn switching_protocols(request_key: &[u8]) -> (response: Response)
        ensures
            response@ == switching_protocols_view(request_key@),
            has_legal_headers(response@),
    {
        let accept = derive_accept_key(request_key);
        let mut headers: Vec<(String, String)> = Vec::new();
        headers.push(("connection".to_owned(), "upgrade".to_owned()));
        headers.push(("upgrade".to_owned(), "websocket".to_owned()));
        headers.push(("sec-websocket-accept".to_owned(), accept));
        let response = Response { status: 101, headers, body: String::new() };
        assert(response@.headers =~= switching_protocols_view(request_key@).headers);
        proof {
            reveal_strlit("connection");
            reveal_strlit("upgrade");
            reveal_strlit("websocket");
            reveal_strlit("sec-websocket-accept");
        }
        response
    }

    /// Refuses a handshake without a key.
    pub fn missing_key() -> (response: Response)
        ensures
            response@ == missing_key_view(),
            has_legal_headers(response@),
    {
        let response = Response {
            status: 400,
            headers: Vec::new(),
            body: missing_key_message(),
        };
        assert(response@.headers =~= Seq::empty());
        response
    }

    /// Carries `body`.
    pub fn ok(body: String) -> (response: Response)
        ensures
            response@ == ok_view(body@),
            has_legal_headers(response@),
    {
        let response = Response { status: 200, headers: Vec::new(), body };
        assert(response@.headers =~= Seq::empty());
        response
    }
}

/// Whatever key a client sends, the response that completes its handshake has status 101 and three
/// headers, and the accept key among them, which stands there once, is that of this very key.
pub proof fn handshake_is_completed_for_the_key(request_key: &[u8], response: Response)
    requires
        call_ensures(Response::switching_protocols, (request_key,), response),
    ensures
        response.status == 101,
        response.body@.len() == 0,
        response.headers@.len() == 3,
        exists|i: int|
            0 <= i < 3 && (#[trigger] response.headers@[i]).0@ == "sec-websocket-accept"@,
        exists|i: int| 0 <= i < 3 && (#[trigger] response.headers@[i]).0@ == "connection"@,
        exists|i: int| 0 <= i < 3 && (#[trigger] response.headers@[i]).0@ == "upgrade"@,
        forall|i: int|
            0 <= i < 3 ==> {
                let (name, value) = #[trigger] response.headers@[i];
                &&& name@ == "sec-websocket-accept"@ ==> value@ == accept_key(request_key@)
                &&& name@ == "connection"@ ==> value@ == "upgrade"@
                &&& name@ == "upgrade"@ ==> value@ == "websocket"@
            },
        forall|i: int, j: int|
            0 <= i < j < 3 ==> (#[trigger] response.headers@[i]).0@ != (
            #[trigger] response.headers@[j]).0@,
{
    reveal_strlit("connection");
    reveal_strlit("upgrade");
    reveal_strlit("sec-websocket-accept");
    assert("connection"@.len() == 10);
    assert("upgrade"@.len() == 7);
    assert("sec-websocket-accept"@.len() == 20);
    let headers = response@.headers;
    assert(headers.len() == response.headers@.len());
    assert forall|i: int| 0 <= i < 3 implies headers[i] == (
        (#[trigger] response.headers@[i]).0@,
        response.headers@[i].1@,
    ) by {}
    assert(response.headers@[0].0@ == "connection"@);
    assert(response.headers@[1].0@ == "upgrade"@);
    assert(response.headers@[2].0@ == "sec-websocket-accept"@);
}

/// Two handshakes are completed with the same response exactly if their accept keys are the same.
pub proof fn handshakes_differ_in_the_accept_key(
    request_key: &[u8],
    other_key: &[u8],
    response: Response,
    other: Response,
)
    requires
        call_ensures(Response::switching_protocols, (request_key,), response),
        call_ensures(Response::switching_protocols, (other_key,), other),
    ensures
        response@ == other@ <==> accept_key(request_key@) == accept_key(other_key@),
{
    if response@ == other@ {
        assert(response@.headers[2] == other@.headers[2]);
    }
}

/// A handshake without a key is a bad request, and is told what is missing.
pub proof fn handshake_without_key_is_a_bad_request(response: Response)
    requires
        call_ensures(Response::missing_key, (), response),
    ensures
        response.status == 400,
        response.headers@.len() == 0,
        response.body@ == "No \"Sec-WebSocket-Key\" header"@,
{
    assert(response@.headers.len() == response.headers@.len());
}

/// A body is carried as it is, whatever it is.
pub proof fn body_is_carried_as_it_is(body: String, response: Response)
    requires
        call_ensures(Response::ok, (body,), response),
    ensures
        response.status == 200,
        response.headers@.len() == 0,
        response.body@ == body@,
{
    assert(response@.headers.len() == response.headers@.len());
}

/// What a response says is its status, its headers in their order, and its body.
pub proof fn response_says_what_it_holds(response: Response)
    ensures
        response@.status == response.status,
        response@.body == response.body@,
        response@.headers.len() == response.headers@.len(),
        forall|i: int|
            0 <= i < response.headers@.len() ==> (#[trigger] response@.headers[i]).0
                == response.headers@[i].0@ && response@.headers[i].1 == response.headers@[i].1@,
{
}

/// The name of a legal header is made of lower-case letters and hyphens, and its value of
/// printable characters.
pub proof fn legal_headers_are_plain(response: ResponseView)
    requires
        has_legal_headers(response),
    ensures
        forall|i: int|
            #![trigger response.headers[i]]
            0 <= i < response.headers.len() ==> {
                let (name, value) = response.headers[i];
                &&& 0 < name.len() <= 64
                &&& forall|j: int|
                    0 <= j < name.len() ==> 'a' <= #[trigger] name[j] <= 'z' || name[j] == '-'
                &&& forall|j: int| 0 <= j < value.len() ==> ' ' <= #[trigger] value[j] <= '~'
            },
{
}

} // verus!
