//! Client-side coordination for the X Input Method protocol.
//!
//! The library holds the decisions of an input-method client: when an input
//! context is opened, how placement updates for the candidate window are
//! coalesced against in-flight round trips, which key events are forwarded to
//! the server, how server text is decoded, and which user callbacks a server
//! notification reaches. The protocol engine itself is driven by the caller,
//! who performs each returned request and reports each completion back.

pub mod client;
pub mod encoding;
pub mod guarantees;
pub mod preedit;
pub mod style;

pub use client::{ContextState, ImeClient, ImePos, Notification, Request, Step};
pub use encoding::{decode_string, decode_text, Encoding};
pub use preedit::PreeditInfo;
pub use style::{InputFeedback, InputStyle};
