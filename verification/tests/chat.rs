use study_app::buddy_chat::{
    model_name, needs_title, next_rank, reply_of, title_of, title_request, Message, MODEL_COUNT,
};

#[test]
fn message_keeps_role_and_content() {
    let m = Message::new("user", "What is a monad?");
    assert_eq!(m.role(), "user");
    assert_eq!(m.content(), "What is a monad?");
    let c = m.clone();
    assert_eq!(c.role(), "user");
    assert_eq!(c.content(), "What is a monad?");
    let empty = Message::new("", "");
    assert_eq!(empty.role(), "");
    assert_eq!(empty.content(), "");
}

#[test]
fn models_come_best_first() {
    assert_eq!(MODEL_COUNT, 7);
    assert_eq!(model_name(0), Some("llama-3.1-405b-reasoning"));
    assert_eq!(model_name(1), Some("llama-3.1-70b-versatile"));
    assert_eq!(model_name(2), Some("llama-3.1-8b-instant"));
    assert_eq!(model_name(3), Some("llama3-70b-8192"));
    assert_eq!(model_name(4), Some("gemma2-9b-it"));
    assert_eq!(model_name(5), Some("llama3-8b-8192"));
    assert_eq!(model_name(6), Some("gemma-7b-it"));
    assert_eq!(model_name(7), None);
    assert_eq!(model_name(usize::MAX), None);
}

#[test]
fn next_model_is_asked_only_after_a_failure() {
    assert_eq!(next_rank(0, false), Some(1));
    assert_eq!(next_rank(5, false), Some(6));
    assert_eq!(next_rank(6, false), None);
    assert_eq!(next_rank(usize::MAX, false), None);
    assert_eq!(next_rank(0, true), None);
    assert_eq!(next_rank(3, true), None);
}

#[test]
fn reply_fills_in_what_is_missing() {
    let full = reply_of(Some("assistant"), Some("Hello"));
    assert_eq!((full.role(), full.content()), ("assistant", "Hello"));
    let no_role = reply_of(None, Some("Hello"));
    assert_eq!((no_role.role(), no_role.content()), ("assistant", "Hello"));
    let no_content = reply_of(Some("tool"), None);
    assert_eq!((no_content.role(), no_content.content()), ("tool", "Empty message!"));
    let nothing = reply_of(None, None);
    assert_eq!((nothing.role(), nothing.content()), ("assistant", "Empty message!"));
}

#[test]
fn only_a_chat_without_title_needs_one() {
    assert!(needs_title("New Chat"));
    assert!(!needs_title("new chat"));
    assert!(!needs_title("New Chat "));
    assert!(!needs_title(""));
    assert!(!needs_title("Top Study Habits"));
}

#[test]
fn title_is_the_answer_or_the_default() {
    assert_eq!(title_of(Some("Monads Without Tears")), "Monads Without Tears");
    assert_eq!(title_of(Some("")), "");
    assert_eq!(title_of(None), "New Chat");
}

#[test]
fn title_request_holds_instructions_and_exchange() {
    let request = title_request("What is a monad?", "A monoid in the category of endofunctors.");
    assert_eq!(request.len(), 2);
    assert_eq!(request[0].role(), "system");
    assert!(request[0].content().starts_with("Create a short and catchy title of up to 5 words"));
    assert!(request[0].content().ends_with("'What's Up, Buddy?' etc."));
    assert_eq!(request[0].content().chars().count(), 553);
    assert_eq!(request[1].role(), "user");
    assert_eq!(
        request[1].content(),
        "User:What is a monad?\nLLM:A monoid in the category of endofunctors."
    );
}
