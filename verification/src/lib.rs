//! The message protocol of a chat-automation host, seen from the client.
//!
//! Requests go out as an envelope inside a wrapper object (`proto`), one per
//! operation (`client`); replies come back in an envelope of their own and
//! are read by their structure (`decode`, `proto`).  Pushed frames are
//! classified as control events or messages (`websocket`), and a message is
//! whichever of the known shapes its document fits first
//! (`websocket::message`).  JSON text is read and written by `serde_json`
//! (`json`); everything that is decided about a document is decided here.

pub mod client;
pub mod decode;
pub mod error;
pub mod json;
pub mod proto;
pub mod text;
pub mod websocket;

pub use websocket::message;
