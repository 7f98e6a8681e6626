//! Turns webhook event payloads into chat messages.
//!
//! A payload arrives as the body of an HTTP request and is put on a queue as
//! JSON text. A registry of parsers, one per event source, turns the text
//! into an ordered list of messages, and a small state machine decides what
//! the delivery loop does with them. An event that no parser supports is
//! forwarded as its own text.
//!
//! The HTTP server, the chat client and the files are not part of the library:
//! it takes bytes and texts, and hands out messages and decisions.

pub mod config;
pub mod dispatch;
pub mod document;
pub mod event_kind;
pub mod gitlab;
pub mod ingest;
pub mod message;
pub mod parser;
pub mod payload;
pub mod queue;
pub mod text;
