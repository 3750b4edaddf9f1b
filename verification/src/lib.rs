//! Typed calls between two contexts that can only exchange messages: the
//! message protocol, the engine that pairs each call with its reply, the
//! engine that dispatches calls to a service, and callbacks that cross the
//! boundary and are released by message.
//!
//! The engines decide and do not send. Each takes what happened on a channel
//! and returns what is to be done about it, as plain values, so that whoever
//! owns the channel carries it out.

pub mod arguments;
pub mod callback;
pub mod client;
pub mod error;
pub mod handle;
pub mod message;
pub mod payload;
pub mod post;
pub mod protocol;
pub mod reply;
pub mod result;
pub mod server;
pub mod to_async;

pub use callback::Callback;
pub use client::Client;
pub use error::Error;
pub use handle::{AsHandle, Handle};
pub use message::Message;
pub use post::{Post, Transfer};
pub use server::Server;
pub use to_async::{MaybeAsync, ToAsync};
