//! Bookkeeping for the server-side model layer: whether the weights
//! and the chat session are in place, and when the session context is
//! discarded.

use vstd::prelude::*;
use vstd::string::StringExecFns;

verus! {

/// How many completed turns a chat session carries before it is due
/// for a reset, to keep the model's context from growing without
/// bound.
pub const SESSION_TURN_LIMIT: u64 = 5;

/// The state of the model layer: loaded weights, an active chat
/// session seeded with the system prompt, and the number of turns the
/// session context has accumulated.
pub struct ChatBackend {
    /// Whether the model weights have been loaded.
    pub model_loaded: bool,
    /// Whether a chat session exists.
    pub session_active: bool,
    /// Completed turns since the session context was last discarded.
    pub session_turns: u64,
}

impl ChatBackend {
    /// The state before anything has been loaded.
    pub fn new() -> (b: Self)
        ensures
            !b.model_loaded,
            !b.session_active,
            b.session_turns == 0,
    {
        ChatBackend { model_loaded: false, session_active: false, session_turns: 0 }
    }

    /// Whether initialization still has work to do: the model layer
    /// loads only while no chat session exists yet.
    pub fn needs_initialization(&self) -> (r: bool)
        ensures
            r == !self.session_active,
    {
        !self.session_active
    }

    /// Records that the weights were loaded and a fresh session was
    /// seeded with the system prompt.
    pub fn mark_initialized(&mut self)
        ensures
            *final(self) == (ChatBackend {
                model_loaded: true,
                session_active: true,
                session_turns: 0,
            }),
    {
        self.model_loaded = true;
        self.session_active = true;
        self.session_turns = 0;
    }

    /// Whether a response stream may be requested: only once a chat
    /// session exists.
    pub fn stream_request_allowed(&self) -> (r: bool)
        ensures
            r == self.session_active,
    {
        self.session_active
    }

    /// Records one completed turn of the session, saturating rather
    /// than overflowing.
    pub fn record_completed_turn(&mut self)
        ensures
            *final(self) == (ChatBackend {
                session_turns: if old(self).session_turns == u64::MAX {
                    u64::MAX
                } else {
                    (old(self).session_turns + 1) as u64
                },
                ..*old(self)
            }),
    {
        if self.session_turns < u64::MAX {
            self.session_turns = self.session_turns + 1;
        }
    }

    /// Whether the session context is due to be discarded before the
    /// next message: after [`SESSION_TURN_LIMIT`] completed turns.
    pub fn session_reset_due(&self) -> (r: bool)
        ensures
            r == (self.session_turns >= SESSION_TURN_LIMIT),
    {
        self.session_turns >= SESSION_TURN_LIMIT
    }
}

/// Discards the session context: a fresh chat seeded with the system
/// prompt replaces the old one.  Fails, leaving the state alone, when
/// the model or the session was never set up.
pub fn reset_chat(backend: &mut ChatBackend) -> (r: Result<(), String>)
    ensures
        r is Ok <==> old(backend).model_loaded && old(backend).session_active,
        !old(backend).model_loaded ==> (r matches Err(e) && e@ == "Model not initialized"@)
            && *final(backend) == *old(backend),
        old(backend).model_loaded && !old(backend).session_active ==> (r matches Err(e) && e@
            == "Session not initialized"@) && *final(backend) == *old(backend),
        old(backend).model_loaded && old(backend).session_active ==> *final(backend)
            == (ChatBackend { model_loaded: true, session_active: true, session_turns: 0 }),
{
    if !backend.model_loaded {
        return Err(String::from_str("Model not initialized"));
    }
    if !backend.session_active {
        return Err(String::from_str("Session not initialized"));
    }
    backend.session_turns = 0;
    Ok(())
}

} // verus!
