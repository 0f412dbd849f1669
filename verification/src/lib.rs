//! Suggests programming identifiers for a free-text description by way of a
//! generative-language service.
//!
//! The crate holds everything that is decided or computed around the single
//! HTTP exchange: the few-shot conversation that is sent, and the decoding of
//! the service's reply into a list of candidates. The exchange itself is left
//! to the caller.
//!
//! - [`message`]: the turns of a conversation and the request made of them.
//! - [`client`]: the fetcher, from an input to its request and from a reply to
//!   its candidates.
//! - [`response`]: the envelope of a reply and the place of the answer in it.
//! - [`cleaning`]: the unwrapping of an answer that arrives as escaped text.
//! - [`candidate`]: candidates, and the reading of a list of them.
//! - [`report`]: the lines in which candidates are shown.
//! - [`error`]: the failures.
//! - [`json`]: what is taken on trust from `serde_json`.

pub mod candidate;
pub mod cleaning;
pub mod client;
pub mod error;
pub mod json;
pub mod message;
pub mod report;
pub mod response;

pub use candidate::IdentifierCandidate;
pub use client::Client;
pub use error::FetchError;
pub use message::{ChatRequest, Message, MessagePart, MessageRole};
