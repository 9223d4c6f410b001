use rusty_bot::chat::ChatRole;
use rusty_bot::conversation::{
    augmented_prompt, parse_context_toggle, ConversationState, SubmitOutcome,
};

fn ready_state() -> ConversationState {
    let mut s = ConversationState::new();
    s.model_init_finished(None);
    s.database_init_finished(None);
    s
}

#[test]
fn fresh_state_is_pending_and_empty() {
    let s = ConversationState::new();
    assert!(s.is_model_loading);
    assert!(s.is_database_loading);
    assert!(!s.is_model_answering);
    assert!(!s.cancel_token);
    assert!(!s.use_context);
    assert!(s.input_message.is_empty());
    assert!(s.message_history.is_empty());
    assert!(s.loading_screen_visible());
    assert!(!s.needs_scroll());
}

#[test]
fn submit_rejected_while_model_loading() {
    let mut s = ConversationState::new();
    s.set_input(String::from("hello"));
    let r = s.handle_message_send();
    assert!(matches!(r, SubmitOutcome::ModelLoading));
    assert_eq!(s.message_history.len(), 0);
    assert_eq!(s.input_message, "hello");
}

#[test]
fn submit_rejected_while_database_loading() {
    let mut s = ConversationState::new();
    s.model_init_finished(None);
    s.set_input(String::from("hello"));
    let r = s.handle_message_send();
    assert!(matches!(r, SubmitOutcome::DatabaseLoading));
    assert_eq!(s.message_history.len(), 0);
}

#[test]
fn submit_rejected_on_blank_input() {
    let mut s = ready_state();
    s.set_input(String::from("   \t  "));
    let r = s.handle_message_send();
    assert!(matches!(r, SubmitOutcome::EmptyMessage));
    assert!(!s.is_model_answering);
    assert_eq!(s.message_history.len(), 0);
}

#[test]
fn accepted_submit_trims_and_logs_the_message() {
    let mut s = ready_state();
    s.set_input(String::from("  What is Rust?  "));
    let r = s.handle_message_send();
    match r {
        SubmitOutcome::Sent(msg) => assert_eq!(msg, "What is Rust?"),
        other => panic!("expected an accepted submission, got {:?}", other),
    }
    assert!(s.is_model_answering);
    assert!(!s.cancel_token);
    assert!(s.input_message.is_empty());
    assert_eq!(s.message_history.len(), 2);
    assert_eq!(s.message_history[0].role, ChatRole::User);
    assert_eq!(s.message_history[0].content, "What is Rust?");
    assert_eq!(s.message_history[1].role, ChatRole::Assistant);
    assert_eq!(s.message_history[1].content, "");
}

#[test]
fn trim_handles_unicode_white_space() {
    let mut s = ready_state();
    s.set_input(String::from("\u{3000}\u{a0}hi\u{2003}"));
    let r = s.handle_message_send();
    match r {
        SubmitOutcome::Sent(msg) => assert_eq!(msg, "hi"),
        other => panic!("expected an accepted submission, got {:?}", other),
    }
}

#[test]
fn unicode_white_space_only_is_blank() {
    let mut s = ready_state();
    s.set_input(String::from("\u{2028}\u{205f}\u{1680}"));
    let r = s.handle_message_send();
    assert!(matches!(r, SubmitOutcome::EmptyMessage));
}

#[test]
fn chunks_stream_into_the_placeholder() {
    let mut s = ready_state();
    s.set_input(String::from("hello"));
    s.handle_message_send();
    assert!(s.accept_chunk("Hel"));
    assert!(s.accept_chunk("lo "));
    assert!(s.accept_chunk("there"));
    assert_eq!(s.message_history[1].content, "Hello there");
    assert_eq!(s.message_history[0].content, "hello");
    s.finish_response();
    assert!(!s.is_model_answering);
    assert_eq!(s.message_history.len(), 2);
}

#[test]
fn submit_during_answer_requests_cancellation() {
    let mut s = ready_state();
    s.set_input(String::from("hello"));
    s.handle_message_send();
    assert!(s.accept_chunk("first"));
    let r = s.handle_message_send();
    assert!(matches!(r, SubmitOutcome::Cancelled));
    assert!(s.cancel_token);
    assert!(!s.is_model_answering);
    assert!(!s.accept_chunk("late"));
    assert_eq!(s.message_history[1].content, "first");
    assert_eq!(s.message_history.len(), 2);
}

#[test]
fn next_submit_clears_the_cancellation_flag() {
    let mut s = ready_state();
    s.set_input(String::from("one"));
    s.handle_message_send();
    s.handle_message_send();
    assert!(s.cancel_token);
    s.finish_response();
    s.set_input(String::from("two"));
    let r = s.handle_message_send();
    assert!(matches!(r, SubmitOutcome::Sent(_)));
    assert!(!s.cancel_token);
    assert!(s.accept_chunk("tok"));
    assert_eq!(s.message_history.len(), 4);
    assert_eq!(s.message_history[3].content, "tok");
}

#[test]
fn model_init_failure_is_logged_as_assistant_entry() {
    let mut s = ConversationState::new();
    s.model_init_finished(Some(String::from("weights missing")));
    assert!(!s.is_model_loading);
    assert_eq!(s.message_history.len(), 1);
    assert_eq!(s.message_history[0].role, ChatRole::Assistant);
    assert_eq!(
        s.message_history[0].content,
        "Error initializing model: weights missing"
    );
}

#[test]
fn database_init_failure_is_logged_as_assistant_entry() {
    let mut s = ConversationState::new();
    s.database_init_finished(Some(String::from("disk full")));
    assert!(!s.is_database_loading);
    assert_eq!(s.message_history.len(), 1);
    assert_eq!(s.message_history[0].role, ChatRole::Assistant);
    assert_eq!(
        s.message_history[0].content,
        "Error initializing database: disk full"
    );
}

#[test]
fn failed_response_overwrites_the_placeholder_with_the_error() {
    let mut s = ready_state();
    s.set_input(String::from("hello"));
    s.handle_message_send();
    s.record_response_error("connection lost");
    s.finish_response();
    assert_eq!(s.message_history.len(), 2);
    assert_eq!(s.message_history[1].role, ChatRole::Assistant);
    assert_eq!(s.message_history[1].content, "Error: connection lost");
    assert!(!s.is_model_answering);
}

#[test]
fn response_error_on_empty_log_changes_nothing() {
    let mut s = ready_state();
    s.record_response_error("lost");
    assert!(s.message_history.is_empty());
}

#[test]
fn clear_history_empties_the_log_and_nothing_else() {
    let mut s = ready_state();
    s.set_input(String::from("hello"));
    s.handle_message_send();
    s.finish_response();
    s.set_use_context(true);
    s.clear_history();
    assert!(s.message_history.is_empty());
    assert!(s.use_context);
    assert!(!s.is_model_loading);
    assert!(!s.is_database_loading);
}

#[test]
fn augmented_prompt_wraps_the_context_block() {
    let r = augmented_prompt("What is Rust?", "Title: Rust\nBody: A language.\n");
    assert_eq!(
        r,
        "What is Rust?\n\n[Potentially useful context:\nTitle: Rust\nBody: A language.\n]"
    );
}

#[test]
fn context_toggle_parses_only_the_word_true() {
    assert!(parse_context_toggle("true"));
    assert!(!parse_context_toggle("false"));
    assert!(!parse_context_toggle("TRUE"));
    assert!(!parse_context_toggle(""));
    assert!(!parse_context_toggle("yes"));
}

#[test]
fn placeholder_follows_the_loading_and_answering_flags() {
    let mut s = ConversationState::new();
    assert_eq!(s.input_placeholder(), "Waiting for model...");
    s.model_init_finished(None);
    assert_eq!(s.input_placeholder(), "Waiting for model...");
    s.database_init_finished(None);
    assert_eq!(s.input_placeholder(), "Type your message...");
    s.set_input(String::from("hello"));
    s.handle_message_send();
    assert_eq!(s.input_placeholder(), "");
}

#[test]
fn send_button_reads_cancel_during_an_answer() {
    let mut s = ready_state();
    assert_eq!(s.send_button_label(), "Send");
    s.set_input(String::from("hello"));
    s.handle_message_send();
    assert_eq!(s.send_button_label(), "Cancel");
}

#[test]
fn controls_disable_and_enable_with_the_state() {
    let mut s = ConversationState::new();
    assert!(s.input_disabled());
    assert!(s.send_button_disabled());
    assert!(s.reset_button_disabled());
    s.model_init_finished(None);
    s.database_init_finished(None);
    assert!(!s.input_disabled());
    assert!(!s.reset_button_disabled());
    assert!(s.send_button_disabled());
    assert!(!s.send_click_allowed());
    assert!(!s.enter_submits());
    s.set_input(String::from("hello"));
    assert!(!s.send_button_disabled());
    assert!(s.send_click_allowed());
    assert!(s.enter_submits());
    s.handle_message_send();
    assert!(s.input_disabled());
    assert!(!s.send_button_disabled());
    assert!(s.send_click_allowed());
    assert!(s.reset_button_disabled());
    assert!(s.needs_scroll());
}
