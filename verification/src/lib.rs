//! A typed, transport-free client core for a torrent daemon's HTTP control API.
//!
//! The library decides what is sent and how an answer is read: it encodes
//! arguments, keeps the session token, builds each request, classifies status
//! codes and decodes scalar bodies. Sending a request is left to the caller.

pub mod address;
pub mod codec;
pub mod error;
pub mod session;
pub mod status;
pub mod text;
pub mod transport;
pub mod pipeline;
pub mod endpoints;
