//! Message Adapter: raw UI message records and their normalized form.

use vstd::prelude::*;

verus! {

/// The role a chat turn is attributed to.
#[derive(Clone, Copy, Debug, PartialEq, Eq, Structural)]
pub enum Role {
    System,
    User,
    Assistant,
}

/// A message as the UI hands it over: a free-form role tag and the text.
#[derive(Clone)]
pub struct FrontendMessage {
    pub role: String,
    pub content: String,
}

/// A normalized chat message: a fixed role and the unmodified text.
#[derive(Clone)]
pub struct ChatMessage {
    pub role: Role,
    pub content: String,
}

/// Mathematical image of a raw UI message.
#[verifier::ext_equal]
pub ghost struct FrontendMessageView {
    pub role: Seq<char>,
    pub content: Seq<char>,
}

/// Mathematical image of a normalized chat message.
#[verifier::ext_equal]
pub ghost struct ChatMessageView {
    pub role: Role,
    pub content: Seq<char>,
}

impl View for FrontendMessage {
    type V = FrontendMessageView;

    open spec fn view(&self) -> FrontendMessageView {
        FrontendMessageView { role: self.role@, content: self.content@ }
    }
}

impl View for ChatMessage {
    type V = ChatMessageView;

    open spec fn view(&self) -> ChatMessageView {
        ChatMessageView { role: self.role, content: self.content@ }
    }
}

/// The fixed role table: "user", "assistant" and "system" map to their
/// variants; any other tag defaults to `User`. Defaulting is a documented
/// policy, not an error.
pub open spec fn role_of_tag(tag: Seq<char>) -> Role {
    if tag == "user"@ {
        Role::User
    } else if tag == "assistant"@ {
        Role::Assistant
    } else if tag == "system"@ {
        Role::System
    } else {
        Role::User
    }
}

/// Maps a raw role tag to its `Role` per the fixed table.
pub fn parse_role(tag: &String) -> (r: Role)
    ensures
        r == role_of_tag(tag@),
{
    let user = String::from_str("user");
    let assistant = String::from_str("assistant");
    let system = String::from_str("system");
    if *tag == user {
        Role::User
    } else if *tag == assistant {
        Role::Assistant
    } else if *tag == system {
        Role::System
    } else {
        Role::User
    }
}

/// What the Message Adapter produces: every record normalized through the
/// role table, order and length preserved, content untouched.
pub open spec fn adapted(msgs: Seq<FrontendMessageView>) -> Seq<ChatMessageView> {
    msgs.map_values(
        |m: FrontendMessageView| ChatMessageView { role: role_of_tag(m.role), content: m.content },
    )
}

/// Message Adapter: normalizes each raw message in order. The output has one
/// message per input record, in the same order, with the role mapped per the
/// fixed table and the content passed through unchanged (an empty content is
/// no error).
pub fn adapt_messages(msgs: &Vec<FrontendMessage>) -> (out: Vec<ChatMessage>)
    ensures
        out@.len() == msgs@.len(),
        forall|i: int|
            0 <= i < msgs@.len() ==> #[trigger] out@[i]@ == (ChatMessageView {
                role: role_of_tag(msgs@[i]@.role),
                content: msgs@[i]@.content,
            }),
        out@.map_values(|c: ChatMessage| c@) == adapted(
            msgs@.map_values(|m: FrontendMessage| m@),
        ),
{
    let mut out: Vec<ChatMessage> = Vec::new();
    let mut i: usize = 0;
    while i < msgs.len()
        invariant
            0 <= i <= msgs@.len(),
            out@.len() == i,
            forall|j: int|
                0 <= j < i ==> #[trigger] out@[j]@ == (ChatMessageView {
                    role: role_of_tag(msgs@[j]@.role),
                    content: msgs@[j]@.content,
                }),
        decreases msgs@.len() - i,
    {
        let m = &msgs[i];
        out.push(ChatMessage { role: parse_role(&m.role), content: m.content.clone() });
        i = i + 1;
    }
    proof {
        assert(out@.map_values(|c: ChatMessage| c@) =~= adapted(
            msgs@.map_values(|m: FrontendMessage| m@),
        ));
    }
    out
}

} // verus!
