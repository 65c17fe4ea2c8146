use aurelius::config::Config;
use aurelius::handshake::Demand;
use aurelius::renderer::html_of;
use aurelius::service::Reply;
use aurelius::{Error, MarkdownRenderer, RenderError, Renderer, Server, WebsocketBroadcastService};
use hyper::header::HeaderMap;
use tokio::sync::broadcast::error::TryRecvError;
use tokio::sync::broadcast::Receiver;

fn bind<R: Renderer>(renderer: R) -> Server<u16, R> {
    let bound: Result<u16, String> = Ok(4000);
    Server::bind(bound, renderer).unwrap()
}

fn connect(service: &WebsocketBroadcastService) -> Receiver<String> {
    match service.answer(Demand::Upgrade(b"key".to_vec()), String::new()) {
        Reply::Upgrade { updates, .. } => updates,
        Reply::Respond(response) => panic!("the connection is not upgraded: {:?}", response),
    }
}

/// Fails with the text that it is to render.
struct Failing;

impl Renderer for Failing {
    type Error = String;

    fn render(&self, source: &str, output: &mut Vec<u8>) -> Result<(), String> {
        output.push(b'x');
        Err(source.to_string())
    }
}

/// Puts brackets around what it is to render, and fails where there is nothing.
struct Picky;

impl Renderer for Picky {
    type Error = ();

    fn render(&self, source: &str, output: &mut Vec<u8>) -> Result<(), ()> {
        if source.is_empty() {
            return Err(());
        }
        output.extend_from_slice(format!("<{}>", source).as_bytes());
        Ok(())
    }
}

/// Writes a byte that no text holds.
struct Broken;

impl Renderer for Broken {
    type Error = String;

    fn render(&self, _source: &str, output: &mut Vec<u8>) -> Result<(), String> {
        output.push(0xff);
        Ok(())
    }
}

#[test]
fn address_of_the_server() {
    assert_eq!(bind(MarkdownRenderer).addr(), 4000);
}

#[test]
fn address_that_cannot_be_bound() {
    let bound: Result<u16, &str> = Err("in use");
    assert_eq!(Server::bind(bound, MarkdownRenderer).err(), Some("in use"));
}

#[test]
fn lib_send_with_no_clients() {
    let mut server = bind(MarkdownRenderer);
    server.send("This shouldn't hang").unwrap();
}

#[test]
fn send_markdown() {
    let mut server = bind(MarkdownRenderer);
    let mut client = connect(&server.service());
    server.send("*Hello*").unwrap();
    assert_eq!(client.try_recv().unwrap().trim(), "<p><em>Hello</em></p>");
    server.send("# Markdown").unwrap();
    assert_eq!(client.try_recv().unwrap().trim(), "<h1>Markdown</h1>");
    assert_eq!(client.try_recv(), Err(TryRecvError::Empty));
}

fn visit<R: Renderer>(server: &Server<u16, R>) -> String {
    match server.service().handle_request(&HeaderMap::new(), server.shown_html()) {
        Reply::Respond(response) => response.body,
        Reply::Upgrade { .. } => panic!("the connection is upgraded"),
    }
}

#[test]
fn a_visitor_sees_the_last_rendering() {
    let mut server = bind(MarkdownRenderer);
    assert_eq!(server.shown_html(), "");
    assert!(visit(&server).contains("<html>"));
    server.send("# Markdown").unwrap();
    assert!(visit(&server).contains("<h1>Markdown</h1>\n"));
    server.send("*Hello*").unwrap();
    assert_eq!(server.shown_html(), "<p><em>Hello</em></p>\n");
    assert!(visit(&server).contains("<p><em>Hello</em></p>\n"));
    assert!(!visit(&server).contains("<h1>Markdown</h1>"));
}

#[test]
fn each_buffer_that_gives_no_error_is_published() {
    let mut server = bind(Picky);
    let mut client = connect(&server.service());
    for buffer in ["one", "", "two", "", "three"] {
        assert_eq!(server.send(buffer).is_ok(), !buffer.is_empty());
        visit(&server);
    }
    for html in ["<one>", "<two>", "<three>"] {
        assert_eq!(client.try_recv().unwrap(), html);
    }
    assert_eq!(client.try_recv(), Err(TryRecvError::Empty));
    assert_eq!(server.shown_html(), "<three>");
}

#[test]
fn requests_publish_nothing() {
    let mut server = bind(MarkdownRenderer);
    let mut client = connect(&server.service());
    visit(&server);
    connect(&server.service());
    server.service().answer(Demand::UpgradeWithoutKey, String::new());
    assert_eq!(client.try_recv(), Err(TryRecvError::Empty));
    server.send("text").unwrap();
    assert_eq!(client.try_recv().unwrap(), "<p>text</p>\n");
    assert_eq!(client.try_recv(), Err(TryRecvError::Empty));
}

#[test]
fn a_rendering_is_published_or_refused() {
    let mut server = bind(Failing);
    let mut client = connect(&server.service());
    server.publish(Ok(b"<p>one</p>".to_vec())).unwrap();
    assert!(matches!(server.publish(Err("broken".to_string())),
        Err(Error::Renderer(error)) if error == "broken"));
    assert!(matches!(server.publish(Ok(vec![0xff])), Err(Error::Output(RenderError::NotUtf8))));
    assert_eq!(server.shown_html(), "<p>one</p>");
    assert_eq!(client.try_recv().unwrap(), "<p>one</p>");
    assert_eq!(client.try_recv(), Err(TryRecvError::Empty));
}

#[test]
fn messages_from_before_the_handshake_do_not_arrive() {
    let mut server = bind(MarkdownRenderer);
    server.send("early").unwrap();
    let mut client = connect(&server.service());
    for n in 0..16 {
        server.send(&n.to_string()).unwrap();
    }
    for n in 0..16 {
        assert_eq!(client.try_recv().unwrap(), format!("<p>{}</p>\n", n));
    }
    assert_eq!(client.try_recv(), Err(TryRecvError::Empty));
}

#[test]
fn html_in_markdown_goes_through() {
    let mut server = bind(MarkdownRenderer);
    let mut client = connect(&server.service());
    server.send("<p>Hello, world!</p>").unwrap();
    assert_eq!(client.try_recv().unwrap().trim(), "<p>Hello, world!</p>");
    server.send("<p>Goodbye, world!</p>").unwrap();
    assert_eq!(client.try_recv().unwrap().trim(), "<p>Goodbye, world!</p>");
}

#[test]
fn every_client_of_every_service_hears_the_server() {
    let mut server = bind(MarkdownRenderer);
    let service = server.service();
    let mut clients = vec![
        connect(&service),
        connect(&service),
        connect(&service.clone()),
        connect(&server.service()),
    ];
    server.send("gr\u{fc}n").unwrap();
    for client in &mut clients {
        assert_eq!(client.try_recv().unwrap(), "<p>gr\u{fc}n</p>\n");
    }
}

#[test]
fn servers_have_channels_of_their_own() {
    let mut server = bind(MarkdownRenderer);
    let other = bind(MarkdownRenderer);
    let mut client = connect(&other.service());
    server.send("text").unwrap();
    assert_eq!(client.try_recv(), Err(TryRecvError::Empty));
}

#[test]
fn a_channel_keeps_sixteen_messages() {
    let mut server = bind(MarkdownRenderer);
    let mut client = connect(&server.service());
    for _ in 0..16 {
        server.send("text").unwrap();
    }
    assert!(client.try_recv().is_ok());
    server.send("text").unwrap();
    server.send("text").unwrap();
    assert_eq!(client.try_recv(), Err(TryRecvError::Lagged(1)));
}

#[test]
fn the_channel_closes_with_the_server() {
    let server = bind(MarkdownRenderer);
    let mut client = connect(&server.service());
    drop(server);
    assert_eq!(client.try_recv(), Err(TryRecvError::Closed));
}

#[test]
fn error_of_the_renderer() {
    let mut server = bind(Failing);
    let mut client = connect(&server.service());
    match server.send("source") {
        Err(Error::Renderer(error)) => assert_eq!(error, "source"),
        other => panic!("unexpected result: {:?}", other),
    }
    assert_eq!(client.try_recv(), Err(TryRecvError::Empty));
}

#[test]
fn output_that_is_no_text() {
    let mut server = bind(Broken);
    let mut client = connect(&server.service());
    assert!(matches!(server.send("source"), Err(Error::Output(RenderError::NotUtf8))));
    assert_eq!(client.try_recv(), Err(TryRecvError::Empty));
}

#[test]
fn bytes_as_html() {
    assert_eq!(html_of(b"<p>\xc3\xbc</p>".to_vec()).unwrap(), "<p>\u{fc}</p>");
    assert_eq!(html_of(Vec::new()).unwrap(), "");
    assert!(matches!(html_of(vec![0xc3]), Err(RenderError::NotUtf8)));
}

#[test]
fn rendering_appends() {
    let mut output = b"before ".to_vec();
    MarkdownRenderer.render("hello\n=====\n\n* alpha\n* beta\n", &mut output).unwrap();
    assert_eq!(
        String::from_utf8(output).unwrap(),
        "before <h1>hello</h1>\n<ul>\n<li>alpha</li>\n<li>beta</li>\n</ul>\n",
    );
}

#[test]
fn default_settings() {
    let config = Config::default();
    assert_eq!(config.static_root, None);
    assert_eq!(config.highlight_theme, "github");
    assert!(config.css_links.is_empty());
    assert!(config.custom_styles.is_empty());
}
