//! Core logic of a chat front-end for a locally hosted language model.
//!
//! The crate holds the parts of such an application that are plain logic:
//! the message data model, the conversation state machine that gates
//! submission, appends streamed tokens and honours cancellation, the
//! server-side session bookkeeping, and the small text routines the
//! interface needs (trimming, context formatting, markdown rendering
//! decisions).  The surrounding I/O — the reactive view, the model
//! runtime, the vector store — lives outside and drives these functions.

pub mod chat;
pub mod conversation;
pub mod document;
pub mod render;
pub mod session;
pub mod textops;
