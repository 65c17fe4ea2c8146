use aurelius::handshake::Demand;
use aurelius::page::{page, TemplateData};
use aurelius::response::Response;
use aurelius::service::Reply;
use aurelius::{MarkdownRenderer, Server, WebsocketBroadcastService};
use hyper::header::{HeaderMap, HeaderName, HeaderValue};

fn service() -> WebsocketBroadcastService {
    let bound: Result<u16, ()> = Ok(0);
    Server::bind(bound, MarkdownRenderer).unwrap().service()
}

fn handshake(key: Option<&str>) -> HeaderMap<HeaderValue> {
    let mut headers = HeaderMap::new();
    headers.insert("Connection", HeaderValue::from_static("Upgrade"));
    headers.insert("Upgrade", HeaderValue::from_static("websocket"));
    if let Some(key) = key {
        headers.insert("Sec-WebSocket-Key", HeaderValue::from_str(key).unwrap());
    }
    headers
}

fn responded(reply: Reply<String>) -> Response {
    match reply {
        Reply::Respond(response) => response,
        Reply::Upgrade { .. } => panic!("the connection is upgraded"),
    }
}

#[test]
fn connect_http() {
    let response = responded(service().handle_request(&HeaderMap::new(), String::new()));
    assert_eq!(response.status, 200);
    assert!(response.headers.is_empty());
    assert!(response.body.contains("<html>"));
}

#[test]
fn lib_connect_websocket() {
    let headers = handshake(Some("dGhlIHNhbXBsZSBub25jZQ=="));
    match service().handle_request(&headers, String::new()) {
        Reply::Upgrade { response, .. } => {
            assert_eq!(response.status, 101);
            assert_eq!(
                response.headers,
                vec![
                    ("connection".to_string(), "upgrade".to_string()),
                    ("upgrade".to_string(), "websocket".to_string()),
                    (
                        "sec-websocket-accept".to_string(),
                        "s3pPLMBiTxaQ9kYGzzhZRbK+xOo=".to_string(),
                    ),
                ],
            );
            assert_eq!(response.body, "");
        }
        Reply::Respond(response) => panic!("the connection is not upgraded: {:?}", response),
    }
}

#[test]
fn handshake_without_key_is_refused() {
    let response = responded(service().handle_request(&handshake(None), String::new()));
    assert_eq!(response.status, 400);
    assert!(response.headers.is_empty());
    assert_eq!(response.body, "No \"Sec-WebSocket-Key\" header");
}

#[test]
fn key_without_upgrade_gets_the_page() {
    let mut headers = HeaderMap::new();
    headers.insert("Sec-WebSocket-Key", HeaderValue::from_static("key"));
    let response = responded(service().handle_request(&headers, String::new()));
    assert_eq!(response.status, 200);
}

#[test]
fn headers_are_legal() {
    for reply in [
        service().answer(Demand::Upgrade(b"key".to_vec()), String::new()),
        service().answer(Demand::UpgradeWithoutKey, String::new()),
        service().answer(Demand::Page, String::new()),
    ] {
        let response = match reply {
            Reply::Respond(response) => response,
            Reply::Upgrade { response, .. } => response,
        };
        for (name, value) in response.headers {
            assert!(HeaderName::from_bytes(name.as_bytes()).is_ok());
            assert!(HeaderValue::from_str(&value).is_ok());
        }
    }
}

#[test]
fn the_same_request_gets_the_same_response() {
    let one = responded(service().handle_request(&HeaderMap::new(), String::new()));
    let other = responded(service().handle_request(&HeaderMap::new(), String::new()));
    assert_eq!(one.status, other.status);
    assert_eq!(one.body, other.body);
}

#[test]
fn requests_that_differ_get_the_same_page() {
    let mut headers = HeaderMap::new();
    headers.insert("Upgrade", HeaderValue::from_static("websocket"));
    headers.insert("Accept", HeaderValue::from_static("text/html"));
    let one = responded(service().handle_request(&HeaderMap::new(), "<p>text</p>".to_string()));
    let other = responded(service().handle_request(&headers, "<p>text</p>".to_string()));
    assert_eq!(one.status, 200);
    assert_eq!(other.status, 200);
    assert_eq!(one.headers, other.headers);
    assert_eq!(one.body, other.body);
}

#[test]
fn there_is_a_page_for_every_html() {
    for html in ["", "{{", "{{{markdown_html}}}", "{{> partial}}", "<script>", "\u{0}\n\\\"'`"] {
        let response = responded(service().answer(Demand::Page, html.to_string()));
        assert_eq!(response.status, 200);
        assert!(response.body.contains("<html>"));
        assert!(response.body.contains(html));
    }
    let html = page(TemplateData {
        remote_custom_css: vec![String::new(), "{{".to_string()],
        local_custom_css: vec!["{{#each x}}".to_string()],
        highlight_theme: "{{/each}}".to_string(),
        markdown_html: String::new(),
    });
    assert!(html.contains("<html>"));
}

#[test]
fn the_page_is_filled_in() {
    let html = page(TemplateData::default());
    assert!(html.contains("/styles/github.min.css"));
    assert!(!html.contains("{{"));
    let html = page(TemplateData {
        remote_custom_css: vec!["https://example.com/a.css".to_string()],
        local_custom_css: vec!["b.css".to_string(), "c<d.css".to_string()],
        highlight_theme: "monokai".to_string(),
        markdown_html: "<p class=\"x\">a &amp; b {{this}}</p>".to_string(),
    });
    assert!(html.contains("href=\"https://example.com/a.css\""));
    assert!(html.contains("href=\"b.css\""));
    assert!(html.contains("href=\"c&lt;d.css\""));
    assert!(html.contains("/styles/monokai.min.css"));
    assert!(html.contains("<article id=\"markdown-preview\"><p class=\"x\">a &amp; b {{this}}</p></article>"));
}

#[test]
fn the_page_shows_the_html() {
    let html = "<h1>Markdown</h1>\n<p>'quoted' \u{fc}</p>\n";
    let response = responded(service().handle_request(&HeaderMap::new(), html.to_string()));
    assert_eq!(response.status, 200);
    assert!(response.body.contains("<html>"));
    assert!(response.body.contains(html));
}

#[test]
fn the_service_shows_the_plain_page() {
    let response = responded(service().answer(Demand::Page, String::new()));
    assert_eq!(response.body, page(TemplateData::default()));
}
