//! JMAP over WebSocket: the logic of a client's connections.
//!
//! A [`client::Client`] opens connections. On a plain one its user sorts out the responses
//! ([`stream`]); on a [`correlated::CorrelatedWs`] each response is taken to whoever waits for it.
//! Nothing here sends, receives or waits: the functions say what is to be sent, and what is to be
//! done after each event. What each operation brings about is proved in [`guarantees`], and what holds
//! of a connection as a whole in [`laws`].

pub mod client;
pub mod correlated;
pub mod error;
pub mod guarantees;
pub mod handshake;
pub mod ids;
pub mod laws;
pub mod model;
pub mod pending;
pub mod stream;
pub mod text;
pub mod timeout;
pub mod tls;
pub mod wire;
