//! Live preview of markdown as HTML.
//!
//! A [`Server`] renders the buffers that are published to it. Upon an HTTP request it responds with
//! a page that contains the last rendering. A script on the page opens a WebSocket back to the
//! server, over which each new rendering arrives, so that the preview changes without a refresh.
//!
//! What is here decides and computes: [`handshake`] tells what a request asks for, [`service`]
//! what it is answered, and [`session`] what happens on a WebSocket. Sockets are left to the
//! program around it.
//!
//! ```ignore
//! let mut server = Server::bind(bound, MarkdownRenderer)?;
//! println!("listening on {}", server.addr());
//!
//! server.send("# Hello, world")?;
//! ```

pub mod channel;
pub mod config;
pub mod handshake;
pub mod headers;
pub mod live;
pub mod page;
pub mod path;
pub mod renderer;
pub mod response;
pub mod server;
pub mod service;
pub mod session;

pub use path::url_path_to_file_path;
pub use renderer::{MarkdownRenderer, RenderError, Renderer};
pub use server::{Error, Server};
pub use service::WebsocketBroadcastService;
