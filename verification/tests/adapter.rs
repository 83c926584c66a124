use ollama_chat::message::{adapt_messages, parse_role, ChatMessage, FrontendMessage, Role};

fn raw(role: &str, content: &str) -> FrontendMessage {
    FrontendMessage { role: role.to_string(), content: content.to_string() }
}

#[test]
fn role_table_maps_known_tags() {
    assert_eq!(parse_role(&"user".to_string()), Role::User);
    assert_eq!(parse_role(&"assistant".to_string()), Role::Assistant);
    assert_eq!(parse_role(&"system".to_string()), Role::System);
}

#[test]
fn unknown_role_defaults_to_user() {
    assert_eq!(parse_role(&"tool".to_string()), Role::User);
    assert_eq!(parse_role(&"".to_string()), Role::User);
    assert_eq!(parse_role(&"User".to_string()), Role::User);
    assert_eq!(parse_role(&"SYSTEM".to_string()), Role::User);
}

#[test]
fn adapter_preserves_length_and_order() {
    let msgs = vec![
        raw("system", "be brief"),
        raw("user", "hello"),
        raw("assistant", "hi"),
        raw("operator", "who are you?"),
    ];
    let out: Vec<ChatMessage> = adapt_messages(&msgs);
    assert_eq!(out.len(), 4);
    assert_eq!(out[0].role, Role::System);
    assert_eq!(out[0].content, "be brief");
    assert_eq!(out[1].role, Role::User);
    assert_eq!(out[1].content, "hello");
    assert_eq!(out[2].role, Role::Assistant);
    assert_eq!(out[2].content, "hi");
    assert_eq!(out[3].role, Role::User);
    assert_eq!(out[3].content, "who are you?");
}

#[test]
fn empty_content_passes_through() {
    let out = adapt_messages(&vec![raw("user", "")]);
    assert_eq!(out.len(), 1);
    assert_eq!(out[0].content, "");
}

#[test]
fn empty_input_gives_empty_output() {
    let out = adapt_messages(&Vec::new());
    assert!(out.is_empty());
}
