//! Decision logic of a WebTransport-to-bus session relay: protocol
//! classification, subject naming, message routing, the HTTP/3 accept-loop
//! driver and the per-session bridge lifecycle.
pub mod subject;
pub mod alpn;
pub mod bridge;
pub mod driver;
pub mod certs;
pub mod transport;
