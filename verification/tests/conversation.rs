use assistant_core::chat::{
    build_chat_request, create_assistant_message, create_system_message, create_user_message,
    ChatMessage, ConversationWindow, CHAT_MODEL, SYSTEM_PROMPT,
};

fn user(text: &str) -> ChatMessage {
    create_user_message(text.to_string())
}

#[test]
fn system_message_has_prompt() {
    let m = create_system_message();
    assert_eq!(m.role, "system");
    assert_eq!(m.content, SYSTEM_PROMPT);
    assert!(m.metadata.is_none());
}

#[test]
fn user_message_wraps_content() {
    let m = create_user_message("hi there".to_string());
    assert_eq!(m.role, "user");
    assert_eq!(m.content, "hi there");
    assert!(m.metadata.is_none());
}

#[test]
fn assistant_message_has_empty_metadata_envelope() {
    let m = create_assistant_message("a reply".to_string());
    assert_eq!(m.role, "assistant");
    assert_eq!(m.content, "a reply");
    let meta = m.metadata.expect("assistant message carries an envelope");
    assert!(meta.context_check.is_none());
    assert!(meta.facts_check.is_none());
    assert!(meta.search_check.is_none());
    assert!(meta.reasoning.is_none());
    assert!(meta.learning.is_none());
    assert!(meta.search_results.is_none());
}

#[test]
fn empty_history_prompt_is_system_then_user() {
    let w = ConversationWindow::new();
    let p = w.build_prompt("question".to_string());
    assert_eq!(p.len(), 2);
    assert_eq!(p[0].role, "system");
    assert_eq!(p[0].content, SYSTEM_PROMPT);
    assert_eq!(p[1].role, "user");
    assert_eq!(p[1].content, "question");
}

#[test]
fn prompt_keeps_at_most_five_stored_messages() {
    let mut w = ConversationWindow::new();
    for i in 0..8 {
        w.append(user(&format!("m{}", i)));
    }
    let p = w.build_prompt("new".to_string());
    assert_eq!(p.len(), 7);
    assert_eq!(p[0].role, "system");
    for (k, expected) in ["m3", "m4", "m5", "m6", "m7"].iter().enumerate() {
        assert_eq!(p[1 + k].content, *expected);
    }
    assert_eq!(p[6].role, "user");
    assert_eq!(p[6].content, "new");
}

#[test]
fn prompt_with_short_history_takes_it_whole() {
    let mut w = ConversationWindow::new();
    for i in 0..3 {
        w.append(user(&format!("m{}", i)));
    }
    let p = w.build_prompt("new".to_string());
    assert_eq!(p.len(), 5);
    assert_eq!(p[1].content, "m0");
    assert_eq!(p[2].content, "m1");
    assert_eq!(p[3].content, "m2");
}

#[test]
fn build_prompt_does_not_mutate_history() {
    let mut w = ConversationWindow::new();
    w.append(user("only"));
    let _ = w.build_prompt("q".to_string());
    assert_eq!(w.messages.len(), 1);
    assert_eq!(w.messages[0].content, "only");
}

#[test]
fn finalize_appends_assistant_reply() {
    let mut w = ConversationWindow::new();
    w.append(user("question"));
    w.finalize("answer".to_string());
    assert_eq!(w.messages.len(), 2);
    assert_eq!(w.messages[1].role, "assistant");
    assert_eq!(w.messages[1].content, "answer");
    assert!(w.messages[1].metadata.is_some());
}

#[test]
fn finalize_on_empty_reply_is_a_no_op() {
    let mut w = ConversationWindow::new();
    w.append(user("question"));
    w.finalize(String::new());
    assert_eq!(w.messages.len(), 1);
    assert_eq!(w.messages[0].content, "question");
}

#[test]
fn window_is_clamped_to_ten_oldest_dropped_first() {
    let mut w = ConversationWindow::new();
    for i in 0..12 {
        w.finalize(format!("r{}", i));
    }
    assert_eq!(w.messages.len(), 10);
    assert_eq!(w.messages[0].content, "r2");
    assert_eq!(w.messages[9].content, "r11");
    for m in &w.messages {
        assert_eq!(m.role, "assistant");
    }
}

#[test]
fn clear_empties_the_history() {
    let mut w = ConversationWindow::new();
    for i in 0..4 {
        w.append(user(&format!("m{}", i)));
    }
    w.clear();
    assert_eq!(w.messages.len(), 0);
}

#[test]
fn chat_request_carries_model_prompt_and_stream_flag() {
    let mut w = ConversationWindow::new();
    w.append(user("earlier"));
    let r = build_chat_request(&w, "now".to_string());
    assert_eq!(r.model, CHAT_MODEL);
    assert!(r.stream);
    assert_eq!(r.messages.len(), 3);
    assert_eq!(r.messages[0].role, "system");
    assert_eq!(r.messages[1].content, "earlier");
    assert_eq!(r.messages[2].content, "now");
}
