//! The configuration logic of a publisher that sends one message to a topic of
//! a message broker and exits.
//!
//! - [`args`]: the overrides of the command line, and the flags that carry them.
//! - [`settings`]: the settings record, read strictly from the fields of a
//!   document.
//! - [`effective`]: overrides and settings merged, the override first.
//! - [`headers`]: the headers of the message, read from one string.
//! - [`body`]: whether the body comes from standard input or from a file.
//! - [`client`]: the properties of the broker client, by security.
//! - [`kafka`]: the client configuration and the header collection of the
//!   client library, filled from the above.

pub mod args;
pub mod body;
pub mod client;
pub mod effective;
pub mod headers;
pub mod kafka;
pub mod settings;
mod text;
