# aurelius

A complete solution for live-previewing markdown as HTML: a server that renders markdown and pushes
each new rendering to the browsers that show it.

- `src/` is the library, verified with Verus. It decides what a request is answered, renders
  buffers, publishes the HTML to the clients, and steers each WebSocket connection.
- `app/` puts the library on sockets, with hyper and tokio.
- `tests/` runs the library.

What is taken from other crates (the markdown renderer, the templates, the headers of a request,
the accept key of the WebSocket handshake, the broadcast channel) is stated in `src/` where it is
called, in the contracts of `assume_specification` items and `external_body` functions.
