use aurelius::handshake::Demand;
use aurelius::live::{handle, Error, Position, Range, RequestError, Server, Update};
use aurelius::service::Reply;
use hyper::header::{HeaderMap, HeaderValue};
use tokio::sync::broadcast::error::TryRecvError;
use tokio::sync::broadcast::Receiver;

fn new_server() -> Server<u16> {
    let bound: Result<u16, ()> = Ok(4000);
    Server::bind(bound).unwrap()
}

fn handshake(key: Option<&'static str>) -> HeaderMap<HeaderValue> {
    let mut headers = HeaderMap::new();
    headers.insert("Connection", HeaderValue::from_static("Upgrade"));
    headers.insert("Upgrade", HeaderValue::from_static("websocket"));
    if let Some(key) = key {
        headers.insert("Sec-WebSocket-Key", HeaderValue::from_static(key));
    }
    headers
}

fn connect(server: &Server<u16>) -> Receiver<Update> {
    match server.service().respond(&handshake(Some("dGhlIHNhbXBsZSBub25jZQ=="))).unwrap() {
        Reply::Upgrade { updates, .. } => updates,
        Reply::Respond(response) => panic!("the connection is not upgraded: {:?}", response),
    }
}

#[test]
fn connect_html() {
    match new_server().service().respond(&HeaderMap::new()).unwrap() {
        Reply::Respond(response) => {
            assert_eq!(response.status, 200);
            assert!(response.body.contains("<html>"));
        }
        Reply::Upgrade { .. } => panic!("the connection is upgraded"),
    }
}

#[test]
fn async_connect_websocket() {
    match new_server().service().respond(&handshake(Some("dGhlIHNhbXBsZSBub25jZQ=="))).unwrap() {
        Reply::Upgrade { response, .. } => {
            assert_eq!(response.status, 101);
            assert_eq!(response.headers[2].1, "s3pPLMBiTxaQ9kYGzzhZRbK+xOo=");
        }
        Reply::Respond(response) => panic!("the connection is not upgraded: {:?}", response),
    }
}

#[test]
fn async_send_with_no_clients() {
    new_server().send(Update {
        range: None,
        text: String::from("This shouldn't hang"),
    });
}

#[test]
fn send_html() {
    let mut server = new_server();
    let mut websocket = connect(&server);
    server.send(Update {
        range: None,
        text: String::from("<p>Hello, world!</p>"),
    });
    let message = websocket.try_recv().unwrap().into_message();
    assert_eq!(message, "<p>Hello, world!</p>");
}

#[test]
fn updates_arrive_in_order() {
    let mut server = new_server();
    server.send(Update { range: None, text: String::from("early") });
    let mut client = connect(&server);
    for n in 0..16 {
        server.send(Update { range: None, text: n.to_string() });
        server.service().respond(&HeaderMap::new()).unwrap();
    }
    for n in 0..16 {
        assert_eq!(client.try_recv().unwrap().into_message(), n.to_string());
    }
    assert!(matches!(client.try_recv(), Err(TryRecvError::Empty)));
    assert_eq!(server.addr(), 4000);
}

#[test]
fn services_share_the_channel_of_the_server() {
    let mut server = new_server();
    let service = server.service();
    let mut clients = vec![connect(&server)];
    match service.clone().answer(Demand::Upgrade(b"key".to_vec())).unwrap() {
        Reply::Upgrade { updates, .. } => clients.push(updates),
        Reply::Respond(response) => panic!("the connection is not upgraded: {:?}", response),
    }
    server.send(Update {
        range: Some(Range {
            start: Position { line: 1, character: 2 },
            end: Position { line: 3, character: 4 },
        }),
        text: String::from("text"),
    });
    for client in &mut clients {
        let update = client.try_recv().unwrap();
        let range = update.range.unwrap();
        assert_eq!((range.start.line, range.start.character), (1, 2));
        assert_eq!((range.end.line, range.end.character), (3, 4));
        assert_eq!(update.text, "text");
        assert!(matches!(client.try_recv(), Err(TryRecvError::Empty)));
    }
}

#[test]
fn live_handshake_without_key() {
    assert!(matches!(
        new_server().service().respond(&handshake(None)),
        Err(RequestError::MissingSecWebSocketKey)
    ));
}

#[test]
fn live_address() {
    assert_eq!(new_server().addr(), 4000);
    let bound: Result<u16, &str> = Err("in use");
    assert!(matches!(Server::bind(bound), Err(Error::Http("in use"))));
}

#[test]
fn greeting() {
    let response = handle(&HeaderMap::new());
    assert_eq!(response.status, 200);
    assert_eq!(response.body, "Hello world");
}
