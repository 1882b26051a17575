//! Worker dispatch subsystem of an inference front-end.
//!
//! A registry maps each model name to a dedicated worker that owns one
//! backing child process and a duplex messaging channel to it.  The
//! dispatcher routes each prediction request to its worker's inbound queue
//! and collects the reply from the outbound queue; the wire codec turns
//! messages into the multipart frames exchanged with the child process.

pub mod codec;
pub mod dispatch;
pub mod errors;
pub mod json;
pub mod message;
pub mod registry;
pub mod worker;
