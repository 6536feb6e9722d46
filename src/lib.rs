//! Turns untyped editor notifications into typed events.
//!
//! The library holds the decisions of the notification bridge: reading typed
//! scalars out of untyped arguments, assembling a content push, routing a
//! notification by name, and the steps that one unit of work takes between
//! its outside effects (staging and tokenizing, sending on the channel).
//! The effects themselves are performed by the caller; `outcome` models a
//! whole unit's run over those steps and proves what it delivers.

pub mod args;
pub mod event;
pub mod outcome;
pub mod request;
pub mod router;
pub mod unit;

pub use args::{parse_string, parse_usize, Arg, ParseError};
pub use event::{Buffer, Event, Group, Token, TokenKind};
pub use request::{push_request, HandlerError, PushRequest};
pub use router::{request_reply, route, Route};
pub use unit::{after_send, after_tokenize, start, Action, TokenizeOutcome};
