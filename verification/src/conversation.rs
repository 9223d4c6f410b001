//! The conversation state machine.
//!
//! One value of [`ConversationState`] holds everything the chat view
//! shows: the text being typed, the ordered message log, the loading
//! and answering flags, the cooperative cancellation flag and the
//! context toggle.  Each user-visible step of a chat turn is a
//! transition on this value, specified against the ghost model
//! [`ConversationModel`] by a total spec function, so callers know the
//! exact state after every event.

use vstd::prelude::*;
use vstd::string::StringExecFns;
use crate::chat::{ChatMessage, ChatRole, MessageModel};
use crate::textops::{is_blank, trim_spec, trimmed};

verus! {

/// The state behind the chat view.
pub struct ConversationState {
    /// The text currently in the input box.
    pub input_message: String,
    /// The ordered log of user and assistant messages.
    pub message_history: Vec<ChatMessage>,
    /// True while a response stream is being consumed.
    pub is_model_answering: bool,
    /// True until the language model has finished loading.
    pub is_model_loading: bool,
    /// True until the document store has finished loading.
    pub is_database_loading: bool,
    /// The cooperative cancellation flag, polled once per token.
    pub cancel_token: bool,
    /// Whether a context lookup precedes the next request.
    pub use_context: bool,
}

/// The mathematical model of a conversation state.
#[verifier::ext_equal]
pub struct ConversationModel {
    pub input: Seq<char>,
    pub history: Seq<MessageModel>,
    pub answering: bool,
    pub model_loading: bool,
    pub database_loading: bool,
    pub cancel_requested: bool,
    pub use_context: bool,
}

impl View for ConversationState {
    type V = ConversationModel;

    open spec fn view(&self) -> ConversationModel {
        ConversationModel {
            input: self.input_message@,
            history: self.message_history@.map_values(|m: ChatMessage| m@),
            answering: self.is_model_answering,
            model_loading: self.is_model_loading,
            database_loading: self.is_database_loading,
            cancel_requested: self.cancel_token,
            use_context: self.use_context,
        }
    }
}

/// What a submission attempt decided.
#[derive(Clone, Copy, PartialEq, Eq, Structural, Debug)]
pub enum SubmitDecision {
    /// A response was underway: its cancellation was requested instead.
    Cancelled,
    /// Rejected: the language model is still loading.
    ModelLoading,
    /// Rejected: the document store is still loading.
    DatabaseLoading,
    /// Rejected: the input trims to nothing.
    EmptyMessage,
    /// Accepted: the trimmed message was logged and a turn begins.
    Sent,
}

/// The result a submission attempt hands back to the caller; on
/// acceptance it carries the trimmed message to send to the model.
#[derive(Debug)]
pub enum SubmitOutcome {
    Cancelled,
    ModelLoading,
    DatabaseLoading,
    EmptyMessage,
    Sent(String),
}

impl SubmitOutcome {
    /// The decision this outcome reports.
    pub open spec fn decision(&self) -> SubmitDecision {
        match self {
            SubmitOutcome::Cancelled => SubmitDecision::Cancelled,
            SubmitOutcome::ModelLoading => SubmitDecision::ModelLoading,
            SubmitOutcome::DatabaseLoading => SubmitDecision::DatabaseLoading,
            SubmitOutcome::EmptyMessage => SubmitDecision::EmptyMessage,
            SubmitOutcome::Sent(_) => SubmitDecision::Sent,
        }
    }
}

/// The state a fresh conversation starts in: nothing typed, an empty
/// log, both loaders pending, no turn underway.
pub open spec fn initial_model() -> ConversationModel {
    ConversationModel {
        input: Seq::<char>::empty(),
        history: Seq::<MessageModel>::empty(),
        answering: false,
        model_loading: true,
        database_loading: true,
        cancel_requested: false,
        use_context: false,
    }
}

/// What a submission attempt does to the state, and what it decides.
///
/// While a response is underway the attempt turns into a cancellation
/// request.  Otherwise it is rejected while either loader is pending or
/// when the input trims to nothing.  Only then is the turn accepted:
/// the trimmed message and an empty assistant placeholder are appended
/// to the log, the input is cleared, and answering begins with the
/// cancellation flag reset.
pub open spec fn submit_step(m: ConversationModel) -> (ConversationModel, SubmitDecision) {
    if m.answering {
        (
            ConversationModel { answering: false, cancel_requested: true, ..m },
            SubmitDecision::Cancelled,
        )
    } else if m.model_loading {
        (m, SubmitDecision::ModelLoading)
    } else if m.database_loading {
        (m, SubmitDecision::DatabaseLoading)
    } else if is_blank(m.input) {
        (m, SubmitDecision::EmptyMessage)
    } else {
        (
            ConversationModel {
                input: Seq::<char>::empty(),
                history: m.history.push(
                    MessageModel { role: ChatRole::User, content: trim_spec(m.input) },
                ).push(MessageModel { role: ChatRole::Assistant, content: Seq::<char>::empty() }),
                answering: true,
                cancel_requested: false,
                ..m
            },
            SubmitDecision::Sent,
        )
    }
}

/// What one streamed token does to the state, and whether consumption
/// goes on.
///
/// The cancellation flag is checked first: once it is set the token is
/// discarded, the state is left alone and consumption stops.  Otherwise
/// the token's text is appended to the last logged message — the
/// assistant placeholder of the running turn — and consumption goes on.
/// With an empty log there is nothing to append to.
pub open spec fn chunk_step(m: ConversationModel, chunk: Seq<char>) -> (ConversationModel, bool) {
    if m.cancel_requested {
        (m, false)
    } else if m.history.len() == 0 {
        (m, true)
    } else {
        let last = m.history.last();
        (
            ConversationModel {
                history: m.history.update(
                    m.history.len() - 1,
                    MessageModel { role: last.role, content: last.content + chunk },
                ),
                ..m
            },
            true,
        )
    }
}

/// What finishing a turn does to the state: the response stream is
/// exhausted or abandoned, so answering ends.
pub open spec fn finish_step(m: ConversationModel) -> ConversationModel {
    ConversationModel { answering: false, ..m }
}

/// What a failed response request does to the state: the error is
/// surfaced in the last logged message — the placeholder of the turn —
/// in place of the reply.  With an empty log there is nowhere to put
/// it.
pub open spec fn response_error_step(m: ConversationModel, error: Seq<char>) -> ConversationModel {
    if m.history.len() == 0 {
        m
    } else {
        ConversationModel {
            history: m.history.update(
                m.history.len() - 1,
                MessageModel { role: m.history.last().role, content: "Error: "@ + error },
            ),
            ..m
        }
    }
}

/// What the end of model initialization does to the state: the model
/// loader stops pending, and a failure is surfaced as an assistant-role
/// log entry rather than thrown.
pub open spec fn model_init_step(m: ConversationModel, error: Option<Seq<char>>) -> ConversationModel {
    match error {
        None => ConversationModel { model_loading: false, ..m },
        Some(e) => ConversationModel {
            model_loading: false,
            history: m.history.push(
                MessageModel {
                    role: ChatRole::Assistant,
                    content: "Error initializing model: "@ + e,
                },
            ),
            ..m
        },
    }
}

/// What the end of document-store initialization does to the state,
/// in the same way as [`model_init_step`].
pub open spec fn database_init_step(m: ConversationModel, error: Option<Seq<char>>) -> ConversationModel {
    match error {
        None => ConversationModel { database_loading: false, ..m },
        Some(e) => ConversationModel {
            database_loading: false,
            history: m.history.push(
                MessageModel {
                    role: ChatRole::Assistant,
                    content: "Error initializing database: "@ + e,
                },
            ),
            ..m
        },
    }
}

/// What a reset does to the state: the log is cleared and nothing else
/// changes.
pub open spec fn clear_step(m: ConversationModel) -> ConversationModel {
    ConversationModel { history: Seq::<MessageModel>::empty(), ..m }
}

impl ConversationState {
    /// Builds the state a fresh conversation starts in.
    pub fn new() -> (s: Self)
        ensures
            s@ == initial_model(),
    {
        let s = ConversationState {
            input_message: String::new(),
            message_history: Vec::new(),
            is_model_answering: false,
            is_model_loading: true,
            is_database_loading: true,
            cancel_token: false,
            use_context: false,
        };
        proof {
            assert(s@ =~= initial_model());
        }
        s
    }

    /// Handles a press of the send control or of the enter key: either
    /// requests cancellation of the running response, rejects the
    /// attempt, or logs the message and starts the turn, exactly as
    /// [`submit_step`] says.
    pub fn handle_message_send(&mut self) -> (r: SubmitOutcome)
        ensures
            final(self)@ == submit_step(old(self)@).0,
            r.decision() == submit_step(old(self)@).1,
            r matches SubmitOutcome::Sent(msg) ==> msg@ == trim_spec(old(self)@.input),
    {
        if self.is_model_answering {
            self.cancel_token = true;
            self.is_model_answering = false;
            proof {
                assert(self@ =~= submit_step(old(self)@).0);
            }
            return SubmitOutcome::Cancelled;
        }
        if self.is_model_loading {
            return SubmitOutcome::ModelLoading;
        }
        if self.is_database_loading {
            return SubmitOutcome::DatabaseLoading;
        }
        let user_message = trimmed(self.input_message.as_str());
        if user_message.as_str().is_empty() {
            return SubmitOutcome::EmptyMessage;
        }
        self.cancel_token = false;
        self.is_model_answering = true;
        self.message_history.push(
            ChatMessage { role: ChatRole::User, content: user_message.clone() },
        );
        self.message_history.push(
            ChatMessage { role: ChatRole::Assistant, content: String::new() },
        );
        self.input_message = String::new();
        proof {
            assert(self@.history =~= submit_step(old(self)@).0.history);
            assert(self@ =~= submit_step(old(self)@).0);
        }
        SubmitOutcome::Sent(user_message)
    }

    /// Consumes one streamed token: checks the cancellation flag, and
    /// only when it is clear appends the token to the last logged
    /// message.  Returns whether consumption should go on, exactly as
    /// [`chunk_step`] says.
    pub fn accept_chunk(&mut self, chunk: &str) -> (r: bool)
        ensures
            final(self)@ == chunk_step(old(self)@, chunk@).0,
            r == chunk_step(old(self)@, chunk@).1,
    {
        if self.cancel_token {
            return false;
        }
        let n = self.message_history.len();
        if n > 0 {
            let last = &mut self.message_history[n - 1];
            last.content.append(chunk);
            proof {
                assert(self@.history =~= chunk_step(old(self)@, chunk@).0.history);
                assert(self@ =~= chunk_step(old(self)@, chunk@).0);
            }
        }
        true
    }

    /// Surfaces a failure of the response request in the placeholder
    /// of the turn, as [`response_error_step`] says.
    pub fn record_response_error(&mut self, error: &str)
        ensures
            final(self)@ == response_error_step(old(self)@, error@),
    {
        let n = self.message_history.len();
        if n > 0 {
            let text = String::from_str("Error: ").concat(error);
            let last = &mut self.message_history[n - 1];
            last.content = text;
            proof {
                assert(self@.history =~= response_error_step(old(self)@, error@).history);
                assert(self@ =~= response_error_step(old(self)@, error@));
            }
        }
    }

    /// Ends the turn once the response stream is exhausted or
    /// abandoned.
    pub fn finish_response(&mut self)
        ensures
            final(self)@ == finish_step(old(self)@),
    {
        self.is_model_answering = false;
        proof {
            assert(self@ =~= finish_step(old(self)@));
        }
    }

    /// Records the end of model initialization: clears the model
    /// loader, and surfaces a failure as an assistant-role log entry.
    pub fn model_init_finished(&mut self, error: Option<String>)
        ensures
            final(self)@ == model_init_step(old(self)@, error.deep_view()),
    {
        self.is_model_loading = false;
        match error {
            None => {
                proof {
                    assert(self@ =~= model_init_step(old(self)@, None));
                }
            },
            Some(e) => {
                let text = String::from_str("Error initializing model: ").concat(e.as_str());
                self.message_history.push(
                    ChatMessage { role: ChatRole::Assistant, content: text },
                );
                proof {
                    assert(self@.history =~= model_init_step(old(self)@, Some(e@)).history);
                    assert(self@ =~= model_init_step(old(self)@, Some(e@)));
                }
            },
        }
    }

    /// Records the end of document-store initialization, in the same
    /// way as [`Self::model_init_finished`].
    pub fn database_init_finished(&mut self, error: Option<String>)
        ensures
            final(self)@ == database_init_step(old(self)@, error.deep_view()),
    {
        self.is_database_loading = false;
        match error {
            None => {
                proof {
                    assert(self@ =~= database_init_step(old(self)@, None));
                }
            },
            Some(e) => {
                let text = String::from_str("Error initializing database: ").concat(e.as_str());
                self.message_history.push(
                    ChatMessage { role: ChatRole::Assistant, content: text },
                );
                proof {
                    assert(self@.history =~= database_init_step(old(self)@, Some(e@)).history);
                    assert(self@ =~= database_init_step(old(self)@, Some(e@)));
                }
            },
        }
    }

    /// Clears the message log, as the reset control does once the
    /// model layer has discarded its session context.
    pub fn clear_history(&mut self)
        ensures
            final(self)@ == clear_step(old(self)@),
    {
        self.message_history = Vec::new();
        proof {
            assert(self@ =~= clear_step(old(self)@));
        }
    }

    /// Stores an edit of the input box.
    pub fn set_input(&mut self, text: String)
        ensures
            final(self)@ == (ConversationModel { input: text@, ..old(self)@ }),
    {
        self.input_message = text;
        proof {
            assert(self@ =~= (ConversationModel { input: self.input_message@, ..old(self)@ }));
        }
    }

    /// Stores a flip of the context toggle.
    pub fn set_use_context(&mut self, enabled: bool)
        ensures
            final(self)@ == (ConversationModel { use_context: enabled, ..old(self)@ }),
    {
        self.use_context = enabled;
        proof {
            assert(self@ =~= (ConversationModel { use_context: enabled, ..old(self)@ }));
        }
    }

    /// Whether the loading screen covers the view: either loader is
    /// still pending.
    pub fn loading_screen_visible(&self) -> (r: bool)
        ensures
            r == (self@.model_loading || self@.database_loading),
    {
        self.is_model_loading || self.is_database_loading
    }

    /// Whether the view should scroll to the newest message: the log
    /// holds at least one.
    pub fn needs_scroll(&self) -> (r: bool)
        ensures
            r == (self@.history.len() > 0),
    {
        self.message_history.len() > 0
    }

    /// Whether the input box (and the context toggle beside it) takes
    /// no edits: during loading and while a response is underway.
    pub fn input_disabled(&self) -> (r: bool)
        ensures
            r == (self@.answering || self@.model_loading || self@.database_loading),
    {
        self.is_model_answering || self.is_model_loading || self.is_database_loading
    }

    /// The placeholder the input box shows: a waiting note during
    /// loading, nothing while a response is underway, an invitation
    /// otherwise.
    pub fn input_placeholder(&self) -> (r: String)
        ensures
            (self@.model_loading || self@.database_loading) ==> r@ == "Waiting for model..."@,
            !(self@.model_loading || self@.database_loading) && self@.answering ==> r@ == Seq::<
                char,
            >::empty(),
            !(self@.model_loading || self@.database_loading) && !self@.answering ==> r@
                == "Type your message..."@,
    {
        if self.is_model_loading || self.is_database_loading {
            String::from_str("Waiting for model...")
        } else if self.is_model_answering {
            String::new()
        } else {
            String::from_str("Type your message...")
        }
    }

    /// Whether the send control is inert: during loading, and outside
    /// a turn whenever the input trims to nothing.  While a response
    /// is underway it stays live, as the cancel control.
    pub fn send_button_disabled(&self) -> (r: bool)
        ensures
            r == ((self@.model_loading || self@.database_loading) || (!self@.answering && is_blank(
                self@.input,
            ))),
    {
        let loading = self.is_model_loading || self.is_database_loading;
        let blank = trimmed(self.input_message.as_str()).as_str().is_empty();
        loading || (!self.is_model_answering && blank)
    }

    /// The label of the send control: it offers cancellation while a
    /// response is underway.
    pub fn send_button_label(&self) -> (r: String)
        ensures
            self@.answering ==> r@ == "Cancel"@,
            !self@.answering ==> r@ == "Send"@,
    {
        if self.is_model_answering {
            String::from_str("Cancel")
        } else {
            String::from_str("Send")
        }
    }

    /// Whether a click of the send control reaches submission: always
    /// while a response
    /// is underway (to cancel it), otherwise only once loading is over
    /// and the input does not trim to nothing.
    pub fn send_click_allowed(&self) -> (r: bool)
        ensures
            r == (self@.answering || (!(self@.model_loading || self@.database_loading)
                && !is_blank(self@.input))),
    {
        if self.is_model_answering {
            true
        } else {
            let loading = self.is_model_loading || self.is_database_loading;
            let blank = trimmed(self.input_message.as_str()).as_str().is_empty();
            !loading && !blank
        }
    }

    /// Whether the enter key submits: the input must not trim to
    /// nothing.
    pub fn enter_submits(&self) -> (r: bool)
        ensures
            r == !is_blank(self@.input),
    {
        !trimmed(self.input_message.as_str()).as_str().is_empty()
    }

    /// Whether the reset control is inert: while the model loads and
    /// while a response is underway.
    pub fn reset_button_disabled(&self) -> (r: bool)
        ensures
            r == (self@.model_loading || self@.answering),
    {
        self.is_model_loading || self.is_model_answering
    }
}

/// Appends the retrieved context to the message about to be sent, set
/// off by a bracketed note, exactly as the producer task does when the
/// context toggle is on.
pub fn augmented_prompt(user_message: &str, context: &str) -> (r: String)
    ensures
        r@ == user_message@ + "\n\n[Potentially useful context:\n"@ + context@ + "]"@,
{
    String::from_str(user_message).concat("\n\n[Potentially useful context:\n").concat(
        context,
    ).concat("]")
}

/// Reads the value a checkbox change reports: everything but the exact
/// word true, including malformed text, counts as off.
pub fn parse_context_toggle(value: &str) -> (r: bool)
    ensures
        r == (value@ == "true"@),
{
    let v = String::from_str(value);
    let t = String::from_str("true");
    v == t
}

/// A conversation state is well formed when, during an answer, the log
/// is non-empty and ends with the assistant entry that streamed tokens
/// are appended to.
pub open spec fn wf(m: ConversationModel) -> bool {
    m.answering ==> m.history.len() > 0 && m.history.last().role == ChatRole::Assistant
}

/// The state run by a whole response stream: each token in turn, until
/// the stream is exhausted or a step asks consumption to stop.
pub open spec fn run_stream(m: ConversationModel, chunks: Seq<Seq<char>>) -> ConversationModel
    decreases chunks.len(),
{
    if chunks.len() == 0 {
        m
    } else {
        let (m2, cont) = chunk_step(m, chunks.first());
        if cont {
            run_stream(m2, chunks.drop_first())
        } else {
            m2
        }
    }
}

/// A fresh conversation is well formed.
pub proof fn lemma_initial_wf()
    ensures
        wf(initial_model()),
{
}

/// A submission is accepted exactly when no response is underway, both
/// loaders are done, and the input does not trim to nothing: the
/// initialization gating of the pipeline.
pub proof fn lemma_submit_gating(m: ConversationModel)
    ensures
        submit_step(m).1 == SubmitDecision::Sent <==> (!m.answering && !m.model_loading
            && !m.database_loading && !is_blank(m.input)),
{
}

/// A submission attempt keeps the state well formed.
pub proof fn lemma_submit_preserves_wf(m: ConversationModel)
    requires
        wf(m),
    ensures
        wf(submit_step(m).0),
{
}

/// Consuming one token keeps the state well formed.
pub proof fn lemma_chunk_preserves_wf(m: ConversationModel, chunk: Seq<char>)
    requires
        wf(m),
    ensures
        wf(chunk_step(m, chunk).0),
{
}

/// Surfacing a failed response request keeps the state well formed:
/// the entry it overwrites keeps its role.
pub proof fn lemma_response_error_preserves_wf(m: ConversationModel, error: Seq<char>)
    requires
        wf(m),
    ensures
        wf(response_error_step(m, error)),
{
}

/// Ending a turn keeps the state well formed.
pub proof fn lemma_finish_preserves_wf(m: ConversationModel)
    requires
        wf(m),
    ensures
        wf(finish_step(m)),
{
}

/// Surfacing the end of model initialization keeps the state well
/// formed: a failure is logged as an assistant entry.
pub proof fn lemma_model_init_preserves_wf(m: ConversationModel, error: Option<Seq<char>>)
    requires
        wf(m),
    ensures
        wf(model_init_step(m, error)),
{
}

/// Surfacing the end of document-store initialization keeps the state
/// well formed.
pub proof fn lemma_database_init_preserves_wf(m: ConversationModel, error: Option<Seq<char>>)
    requires
        wf(m),
    ensures
        wf(database_init_step(m, error)),
{
}

/// Outside a turn — the only time the reset control is live — clearing
/// the log keeps the state well formed.
pub proof fn lemma_clear_preserves_wf(m: ConversationModel)
    requires
        wf(m),
        !m.answering,
    ensures
        wf(clear_step(m)),
{
}

/// Once cancellation is requested, a response stream of any length
/// changes nothing: the first poll of the flag stops consumption.
pub proof fn lemma_cancelled_stream_is_inert(m: ConversationModel, chunks: Seq<Seq<char>>)
    requires
        m.cancel_requested,
    ensures
        run_stream(m, chunks) == m,
{
}

/// While cancellation stays unrequested, a response stream appends the
/// concatenation of its tokens to the last logged message and touches
/// nothing else.
proof fn lemma_uncancelled_stream_appends(m: ConversationModel, chunks: Seq<Seq<char>>)
    requires
        !m.cancel_requested,
        m.history.len() > 0,
    ensures
        run_stream(m, chunks) == (ConversationModel {
            history: m.history.update(
                m.history.len() - 1,
                MessageModel {
                    role: m.history.last().role,
                    content: m.history.last().content + chunks.flatten(),
                },
            ),
            ..m
        }),
    decreases chunks.len(),
{
    let target = ConversationModel {
        history: m.history.update(
            m.history.len() - 1,
            MessageModel {
                role: m.history.last().role,
                content: m.history.last().content + chunks.flatten(),
            },
        ),
        ..m
    };
    if chunks.len() == 0 {
        assert(m.history.last().content + chunks.flatten() =~= m.history.last().content);
        assert(target.history =~= m.history);
        assert(run_stream(m, chunks) =~= target);
    } else {
        let m2 = chunk_step(m, chunks.first()).0;
        lemma_uncancelled_stream_appends(m2, chunks.drop_first());
        assert(m2.history.last().content + chunks.drop_first().flatten() =~= m.history.last().content
            + chunks.flatten());
        assert(run_stream(m2, chunks.drop_first()).history =~= target.history);
        assert(run_stream(m, chunks) =~= target);
    }
}

/// One user turn, end to end: after an accepted submission, a response
/// stream that is never cancelled, and the closing step, the log has
/// grown by exactly the trimmed user message and an assistant message
/// holding the concatenation of the streamed tokens, every earlier
/// entry stands unchanged, and no answer is underway.
pub proof fn lemma_accepted_turn_logs_reply(m: ConversationModel, chunks: Seq<Seq<char>>)
    requires
        submit_step(m).1 == SubmitDecision::Sent,
    ensures
        ({
            let done = finish_step(run_stream(submit_step(m).0, chunks));
            &&& !done.answering
            &&& done.history.len() == m.history.len() + 2
            &&& (forall|i: int| 0 <= i < m.history.len() ==> done.history[i] == m.history[i])
            &&& done.history[m.history.len() as int] == (MessageModel {
                role: ChatRole::User,
                content: trim_spec(m.input),
            })
            &&& done.history.last() == (MessageModel {
                role: ChatRole::Assistant,
                content: chunks.flatten(),
            })
        }),
{
    let sent = submit_step(m).0;
    lemma_uncancelled_stream_appends(sent, chunks);
    let done = finish_step(run_stream(sent, chunks));
    assert(Seq::<char>::empty() + chunks.flatten() =~= chunks.flatten());
    assert(done.history.last() =~= (MessageModel {
        role: ChatRole::Assistant,
        content: chunks.flatten(),
    }));
}

} // verus!
