//! Decision core of a transparent TCP proxy that hides an SSH or VPN stream
//! behind an HTTP/WebSocket-looking handshake.
//!
//! Everything here is pure logic on plain bytes: building the handshake
//! response lines, sniffing a peeked preamble for `HTTP` and `websocket`
//! tokens, choosing a backend port from a bounded peek, and the per-chunk
//! decisions of the bidirectional relay. The sockets, threads and timeouts
//! that drive these decisions live outside the library and hand it plain
//! values.

pub mod config;
pub mod handshake;
pub mod relay;
pub mod route;
pub mod sniff;
