//! The assistant chat rules, exercised with real JSON bodies.

use yavin::chat::{self, ChatPlan, Extraction};

#[test]
fn plan_rejects_empty_message() {
    assert!(matches!(chat::plan_chat("", true), ChatPlan::Reject));
    assert!(matches!(chat::plan_chat("", false), ChatPlan::Reject));
    assert_eq!(chat::chat_message_required(), "Message is required");
}

#[test]
fn plan_answers_demo_without_key() {
    assert!(matches!(chat::plan_chat("What is AI?", false), ChatPlan::Demo));
    assert!(chat::demo_reply().contains("Yavin AI assistant"));
}

#[test]
fn plan_builds_prompt_with_key() {
    match chat::plan_chat("What is AI?", true) {
        ChatPlan::CallApi { prompt } => {
            assert!(prompt.starts_with("You are an AI education assistant on Yavin"));
            assert!(prompt.ends_with("User question: What is AI?"));
        }
        _ => panic!("a non-empty message with a key must be forwarded"),
    }
}

#[test]
fn extraction_reads_the_reply_text() {
    let body = r#"{"candidates":[{"content":{"parts":[{"text":"Hello, learner!"}]}}]}"#;
    match chat::extract_reply_text(body) {
        Extraction::Text(t) => assert_eq!(t, "Hello, learner!"),
        _ => panic!("the text must be found"),
    }
}

#[test]
fn extraction_flags_missing_structure() {
    assert!(matches!(chat::extract_reply_text("not json at all"), Extraction::Unparseable));
    assert!(matches!(chat::extract_reply_text("{}"), Extraction::MissingText));
    assert!(matches!(
        chat::extract_reply_text(r#"{"candidates":[]}"#),
        Extraction::MissingText
    ));
    assert!(matches!(
        chat::extract_reply_text(r#"{"candidates":[{"content":{"parts":[{"text":7}]}}]}"#),
        Extraction::MissingText
    ));
}

#[test]
fn replies_for_each_outcome() {
    assert_eq!(
        chat::reply_for_extraction(Extraction::Text("Hi".to_string())),
        "Hi"
    );
    assert!(chat::reply_for_extraction(Extraction::Unparseable).contains("couldn't understand"));
    assert!(chat::reply_for_extraction(Extraction::MissingText).contains("unexpected response"));
}

#[test]
fn chat_reply_covers_failure_and_success() {
    let failed = chat::chat_reply(false, "irrelevant");
    assert!(failed.contains("trouble connecting to my AI brain"));
    let body = r#"{"candidates":[{"content":{"parts":[{"text":"Neural nets!"}]}}]}"#;
    assert_eq!(chat::chat_reply(true, body), "Neural nets!");
    assert!(chat::chat_reply(true, "garbage").contains("couldn't understand"));
    assert!(chat::reply_network_trouble().contains("internet connection"));
    assert_eq!(chat::chat_read_failure(), "Failed to read AI response");
}
