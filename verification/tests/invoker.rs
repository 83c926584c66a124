use ollama_chat::history::ConversationHistory;
use ollama_chat::invoker::{finish_ask, prepare_ask, settle_ask};
use ollama_chat::message::{ChatMessage, FrontendMessage, Role};

fn raw(role: &str, content: &str) -> FrontendMessage {
    FrontendMessage { role: role.to_string(), content: content.to_string() }
}

#[test]
fn empty_message_list_is_rejected() {
    let r = prepare_ask(&Vec::new(), "llama3".to_string());
    assert_eq!(r.err(), Some("No messages provided to LLM.".to_string()));
}

#[test]
fn last_message_becomes_the_prompt() {
    let msgs = vec![raw("user", "first"), raw("assistant", "second"), raw("user", "third")];
    let req = prepare_ask(&msgs, "m1".to_string()).unwrap();
    assert_eq!(req.model, "m1");
    assert_eq!(req.prompt.role, Role::User);
    assert_eq!(req.prompt.content, "third");
    assert_eq!(req.history.len(), 2);
    assert_eq!(req.history[0].content, "first");
    assert_eq!(req.history[1].content, "second");
}

#[test]
fn single_message_has_no_history() {
    let req = prepare_ask(&vec![raw("user", "hello")], "m1".to_string()).unwrap();
    assert!(req.history.is_empty());
    assert_eq!(req.prompt.content, "hello");
}

#[test]
fn ask_llm_example_success() {
    let req = prepare_ask(&vec![raw("user", "2+2?")], "llama3".to_string()).unwrap();
    assert_eq!(req.model, "llama3");
    assert_eq!(req.prompt.content, "2+2?");
    assert!(req.history.is_empty());
    let r = finish_ask(Ok("4".to_string()));
    assert_eq!(r, Ok("4".to_string()));
}

#[test]
fn ask_llm_example_failure() {
    let r = finish_ask(Err("connection refused".to_string()));
    assert_eq!(r, Err("Error communicating with Ollama: connection refused".to_string()));
}

#[test]
fn settled_success_records_the_exchange() {
    let mut h = ConversationHistory::new();
    let prompt = ChatMessage { role: Role::User, content: "hello".to_string() };
    let r = settle_ask(&mut h, prompt, Ok("hi there".to_string()));
    assert_eq!(r, Ok("hi there".to_string()));
    assert_eq!(h.len(), 2);
    assert_eq!(h.messages()[0].content, "hello");
    assert_eq!(h.messages()[0].role, Role::User);
    assert_eq!(h.messages()[1].content, "hi there");
    assert_eq!(h.messages()[1].role, Role::Assistant);
}

#[test]
fn settled_failure_leaves_history_untouched() {
    let mut h = ConversationHistory::new();
    let p1 = ChatMessage { role: Role::User, content: "first".to_string() };
    settle_ask(&mut h, p1, Ok("reply".to_string())).unwrap();
    let p2 = ChatMessage { role: Role::User, content: "second".to_string() };
    let r = settle_ask(&mut h, p2, Err("timed out".to_string()));
    assert_eq!(r, Err("Error communicating with Ollama: timed out".to_string()));
    assert_eq!(h.len(), 2);
}

#[test]
fn reply_text_passes_through_unchanged() {
    let r = finish_ask(Ok("".to_string()));
    assert_eq!(r, Ok("".to_string()));
}
