use smarts::text::{decimal_string, first_chars_of};
use smarts::{Message, Smarts, SmartsError};

#[test]
fn basic_api_compiles() {
    let smarts = Smarts::with_local_model("test-model").unwrap();
    let _builder = smarts.conversation();
}

#[test]
fn test_basic_conversation_api() {
    let smarts = Smarts::with_local_model("test-model").unwrap();

    let response = smarts
        .conversation()
        .system("You are a helpful assistant")
        .user("Hello, can you help me?")
        .generate()
        .unwrap();

    assert!(!response.is_empty());
    assert!(response.contains("PLACEHOLDER"));
}

#[test]
fn test_conversation_validation() {
    let smarts = Smarts::with_local_model("test-model").unwrap();

    let result = smarts.conversation().generate();
    assert!(result.is_err());

    let result = smarts
        .conversation()
        .system("You are helpful")
        .assistant("I'm ready to help")
        .generate();
    assert!(result.is_err());
}

#[test]
fn test_model_info() {
    let smarts = Smarts::with_local_model("TinyLlama-1.1B-Chat").unwrap();
    assert_eq!(smarts.model_info(), "TinyLlama-1.1B-Chat");
}

#[test]
fn model_info_returns_any_nonempty_name() {
    for name in ["x", " ", "llama-3 8b", "模型"] {
        let smarts = Smarts::with_local_model(name).unwrap();
        assert_eq!(smarts.model_info(), name);
    }
}

#[test]
fn empty_model_name_is_config_error() {
    match Smarts::with_local_model("") {
        Err(SmartsError::ConfigError(m)) => assert_eq!(m, "Model name cannot be empty"),
        _ => panic!("expected a configuration error"),
    }
}

#[test]
fn empty_conversation_is_conversation_error() {
    let smarts = Smarts::with_local_model("m").unwrap();
    match smarts.conversation().generate() {
        Err(SmartsError::ConversationError(m)) => assert_eq!(m, "Conversation cannot be empty"),
        _ => panic!("expected a conversation error"),
    }
}

#[test]
fn conversation_without_user_is_conversation_error() {
    let smarts = Smarts::with_local_model("m").unwrap();
    let result = smarts.conversation().system("s").assistant("a").system("t").generate();
    match result {
        Err(SmartsError::ConversationError(m)) => {
            assert_eq!(m, "Conversation must contain at least one user message")
        }
        _ => panic!("expected a conversation error"),
    }
}

#[test]
fn conversation_ending_with_assistant_is_accepted() {
    let smarts = Smarts::with_local_model("m").unwrap();
    let result = smarts.conversation().user("q").assistant("partial").generate();
    assert!(result.is_ok());
}

#[test]
fn reply_names_model_and_count() {
    let smarts = Smarts::with_local_model("test-model").unwrap();
    let reply = smarts
        .conversation()
        .system("s")
        .user("u")
        .assistant("a")
        .generate()
        .unwrap();
    assert!(!reply.is_empty());
    assert!(reply.contains("test-model"));
    assert!(reply.contains("3 messages"));
}

#[test]
fn end_to_end_example() {
    let smarts = Smarts::with_local_model("TinyLlama-1.1B-Chat").unwrap();
    let reply = smarts.conversation().system("S").user("U").generate().unwrap();
    assert!(reply.contains("TinyLlama-1.1B-Chat"));
    assert!(reply.contains("2 messages"));
    assert_eq!(
        reply,
        "[PLACEHOLDER] Generated response for model 'TinyLlama-1.1B-Chat' with 2 messages. \
         Prompt: System: S\nUser: U\nAssistant: "
    );
}

#[test]
fn reply_quotes_at_most_one_hundred_prompt_chars() {
    let smarts = Smarts::with_local_model("m").unwrap();
    let long = "é".repeat(150);
    let reply = smarts.conversation().user(&long).generate().unwrap();
    let head = "[PLACEHOLDER] Generated response for model 'm' with 1 messages. Prompt: ";
    assert!(reply.starts_with(head));
    let quoted = &reply[head.len()..];
    assert_eq!(quoted.chars().count(), 100);
    assert_eq!(quoted, format!("User: {}", "é".repeat(94)));
}

#[test]
fn formatting_keeps_message_order() {
    let smarts = Smarts::with_local_model("m").unwrap();
    let messages = vec![
        Message::System("a".to_string()),
        Message::User("b".to_string()),
        Message::Assistant("c".to_string()),
    ];
    let prompt = smarts.format_messages_for_model(&messages).unwrap();
    assert_eq!(prompt, "System: a\nUser: b\nAssistant: c\nAssistant: ");
}

#[test]
fn formatting_no_messages_gives_only_the_cue() {
    let smarts = Smarts::with_local_model("m").unwrap();
    assert_eq!(smarts.format_messages_for_model(&[]).unwrap(), "Assistant: ");
}

#[test]
fn chaining_accumulates_messages_in_order() {
    let smarts = Smarts::with_local_model("m").unwrap();
    let builder = smarts.conversation().system("x").user("y");
    let messages = builder.messages();
    assert_eq!(messages.len(), 2);
    assert!(matches!(&messages[0], Message::System(t) if t == "x"));
    assert!(matches!(&messages[1], Message::User(t) if t == "y"));
}

#[test]
fn new_conversation_is_empty() {
    let smarts = Smarts::with_local_model("m").unwrap();
    assert!(smarts.conversation().messages().is_empty());
}

#[test]
fn decimal_rendering() {
    assert_eq!(decimal_string(0), "0");
    assert_eq!(decimal_string(7), "7");
    assert_eq!(decimal_string(10), "10");
    assert_eq!(decimal_string(1203), "1203");
    assert_eq!(decimal_string(usize::MAX), usize::MAX.to_string());
}

#[test]
fn first_chars_prefix() {
    assert_eq!(first_chars_of("hello", 3), "hel");
    assert_eq!(first_chars_of("hi", 10), "hi");
    assert_eq!(first_chars_of("", 0), "");
    assert_eq!(first_chars_of("äöü", 2), "äö");
}

#[test]
fn error_descriptions() {
    assert_eq!(SmartsError::ModelError("m".to_string()).to_string(), "Model error: m");
    assert_eq!(SmartsError::InferenceError("i".to_string()).to_string(), "Inference error: i");
    assert_eq!(
        SmartsError::ConversationError("c".to_string()).to_string(),
        "Conversation error: c"
    );
    assert_eq!(SmartsError::ConfigError("k".to_string()).to_string(), "Configuration error: k");
    let io = SmartsError::IoError(std::io::Error::new(std::io::ErrorKind::Other, "disk"));
    assert_eq!(io.to_string(), "I/O error: disk");
}

#[test]
fn only_io_errors_have_a_source() {
    let io: SmartsError = std::io::Error::new(std::io::ErrorKind::NotFound, "gone").into();
    assert!(matches!(io, SmartsError::IoError(_)));
    let cause = io.source().unwrap();
    assert_eq!(cause.kind(), std::io::ErrorKind::NotFound);
    assert!(SmartsError::ConfigError("k".to_string()).source().is_none());
    assert!(SmartsError::ModelError("m".to_string()).source().is_none());
}
