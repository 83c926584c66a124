//! Completion Invoker: assembling the outbound request and mapping the
//! server's outcome back to the caller.

use vstd::prelude::*;

use crate::history::ConversationHistory;
use crate::history::recorded;
use crate::message::ChatMessage;
use crate::message::ChatMessageView;
use crate::message::FrontendMessage;
use crate::message::FrontendMessageView;
use crate::message::Role;
use crate::message::adapt_messages;
use crate::message::adapted;

verus! {

/// One outbound completion request: the model to address, the already
/// settled turns, and the new prompt. The prompt is kept out of `history`
/// and supplied separately, so it is never duplicated into the buffer
/// before the call.
pub struct AskRequest {
    pub model: String,
    pub history: Vec<ChatMessage>,
    pub prompt: ChatMessage,
}

/// Mathematical image of an outbound request.
#[verifier::ext_equal]
pub ghost struct AskRequestView {
    pub model: Seq<char>,
    pub history: Seq<ChatMessageView>,
    pub prompt: ChatMessageView,
}

impl View for AskRequest {
    type V = AskRequestView;

    open spec fn view(&self) -> AskRequestView {
        AskRequestView {
            model: self.model@,
            history: self.history@.map_values(|m: ChatMessage| m@),
            prompt: self.prompt@,
        }
    }
}

/// The request assembled from a non-empty message list: every record
/// normalized, the last one the new prompt, all earlier ones the history.
pub open spec fn prepared(msgs: Seq<FrontendMessageView>, model: Seq<char>) -> AskRequestView
    recommends
        msgs.len() > 0,
{
    AskRequestView {
        model: model,
        history: adapted(msgs).drop_last(),
        prompt: adapted(msgs).last(),
    }
}

/// Assembles the outbound request. An empty message list is rejected with a
/// fixed error text and nothing else happens; a non-empty list yields
/// exactly the request `prepared` describes.
pub fn prepare_ask(msgs: &Vec<FrontendMessage>, model: String) -> (r: Result<AskRequest, String>)
    ensures
        r is Err <==> msgs@.len() == 0,
        r is Err ==> r->Err_0@ == "No messages provided to LLM."@,
        r is Ok ==> r->Ok_0@ == prepared(msgs@.map_values(|m: FrontendMessage| m@), model@),
{
    let mut all = adapt_messages(msgs);
    if all.len() == 0 {
        return Err(String::from_str("No messages provided to LLM."));
    }
    let ghost allv = all@.map_values(|c: ChatMessage| c@);
    let prompt = all.pop().unwrap();
    let r = AskRequest { model, history: all, prompt };
    proof {
        assert(r@.history =~= allv.drop_last());
    }
    Ok(r)
}

/// The new prompt is supplied separately and never duplicated into the
/// request's history: the history and the prompt together are exactly the
/// adapted input, with the prompt as its sole last element.
pub proof fn lemma_prompt_not_in_history(msgs: Seq<FrontendMessageView>, model: Seq<char>)
    requires
        msgs.len() > 0,
    ensures
        prepared(msgs, model).history.push(prepared(msgs, model).prompt) == adapted(msgs),
        prepared(msgs, model).history.len() == adapted(msgs).len() - 1,
{
    assert(prepared(msgs, model).history.push(prepared(msgs, model).prompt) =~= adapted(msgs));
}

/// The error text returned when the model server fails: the underlying
/// cause, prefixed.
pub open spec fn ollama_error_text(cause: Seq<char>) -> Seq<char> {
    "Error communicating with Ollama: "@ + cause
}

/// Maps the server's outcome to the caller's: the reply text is passed
/// through on success, and on failure the underlying cause is wrapped in a
/// descriptive error string. No retry, no partial result.
pub fn finish_ask(outcome: Result<String, String>) -> (r: Result<String, String>)
    ensures
        r is Ok <==> outcome is Ok,
        outcome is Ok ==> r->Ok_0@ == outcome->Ok_0@,
        outcome is Err ==> r->Err_0@ == ollama_error_text(outcome->Err_0@),
{
    match outcome {
        Ok(content) => Ok(content),
        Err(e) => Err(String::from_str("Error communicating with Ollama: ").concat(e.as_str())),
    }
}

/// The decision after the round trip, stateful mode: a successful reply is
/// recorded in the history as the new exchange - the user's prompt, then the
/// assistant's reply - and passed through to the caller; a failure leaves
/// the history untouched and is wrapped in the descriptive error string.
pub fn settle_ask(
    history: &mut ConversationHistory,
    prompt: ChatMessage,
    outcome: Result<String, String>,
) -> (r: Result<String, String>)
    ensures
        r is Ok <==> outcome is Ok,
        outcome is Ok ==> r->Ok_0@ == outcome->Ok_0@ && final(history)@ == recorded(
            old(history)@,
            prompt@,
            (ChatMessageView { role: Role::Assistant, content: outcome->Ok_0@ }),
        ),
        outcome is Err ==> final(history)@ == old(history)@ && r->Err_0@ == ollama_error_text(
            outcome->Err_0@,
        ),
{
    match outcome {
        Ok(reply) => {
            let reply_message = ChatMessage { role: Role::Assistant, content: reply.clone() };
            history.record_exchange(prompt, reply_message);
            Ok(reply)
        },
        Err(e) => finish_ask(Err(e)),
    }
}

/// The pair of requests two consecutive stateless calls assemble: each call
/// carries its own full message list and touches no shared buffer.
pub open spec fn stateless_session(
    first: Seq<FrontendMessageView>,
    second: Seq<FrontendMessageView>,
    model: Seq<char>,
) -> (AskRequestView, AskRequestView) {
    (prepared(first, model), prepared(second, model))
}

/// Stateless mode: consecutive calls produce independent requests. Whatever
/// the first call's messages were, the request assembled for the second call
/// is the same; no data from the first call influences the second.
pub proof fn lemma_stateless_independence(
    first_a: Seq<FrontendMessageView>,
    first_b: Seq<FrontendMessageView>,
    second: Seq<FrontendMessageView>,
    model: Seq<char>,
)
    ensures
        stateless_session(first_a, second, model).1 == stateless_session(first_b, second, model).1,
{
}

} // verus!
