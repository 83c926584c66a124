//! History Store: the ordered record of prior chat turns.

use vstd::prelude::*;

use crate::message::ChatMessage;
use crate::message::ChatMessageView;

verus! {

/// What one successful exchange leaves behind: the history with the user's
/// prompt and the assistant's reply appended, in that order.
pub open spec fn recorded(
    history: Seq<ChatMessageView>,
    prompt: ChatMessageView,
    reply: ChatMessageView,
) -> Seq<ChatMessageView> {
    history.push(prompt).push(reply)
}

/// An ordered, append-only sequence of prior chat messages. It starts empty,
/// grows by whole exchanges, and is truncated only by an explicit reset.
pub struct ConversationHistory {
    messages: Vec<ChatMessage>,
}

impl View for ConversationHistory {
    type V = Seq<ChatMessageView>;

    closed spec fn view(&self) -> Seq<ChatMessageView> {
        self.messages@.map_values(|m: ChatMessage| m@)
    }
}

impl ConversationHistory {
    /// A fresh history: no prior turns.
    pub fn new() -> (h: Self)
        ensures
            h@ == Seq::<ChatMessageView>::empty(),
    {
        let h = ConversationHistory { messages: Vec::new() };
        proof {
            assert(h@ =~= Seq::<ChatMessageView>::empty());
        }
        h
    }

    /// How many turns the history holds.
    pub fn len(&self) -> (n: usize)
        ensures
            n == self@.len(),
    {
        self.messages.len()
    }

    /// Whether the history holds no turns.
    pub fn is_empty(&self) -> (b: bool)
        ensures
            b == (self@.len() == 0),
    {
        self.messages.is_empty()
    }

    /// Appends one message at the end; every earlier turn stays in place.
    pub fn append(&mut self, m: ChatMessage)
        ensures
            final(self)@ == old(self)@.push(m@),
    {
        let ghost before = self@;
        let ghost mv = m@;
        self.messages.push(m);
        proof {
            assert(self@ =~= before.push(mv));
        }
    }

    /// Records one successful exchange: the user's prompt, then the
    /// assistant's reply.
    pub fn record_exchange(&mut self, prompt: ChatMessage, reply: ChatMessage)
        ensures
            final(self)@ == recorded(old(self)@, prompt@, reply@),
    {
        self.append(prompt);
        self.append(reply);
    }

    /// History Reset: truncates the history to empty. Clearing an already
    /// empty history is a no-op success.
    pub fn clear(&mut self)
        ensures
            final(self)@ == Seq::<ChatMessageView>::empty(),
    {
        self.messages.clear();
        proof {
            assert(self@ =~= Seq::<ChatMessageView>::empty());
        }
    }

    /// The turns in conversation order, for handing to the model client.
    pub fn messages(&self) -> (v: &Vec<ChatMessage>)
        ensures
            v@.map_values(|m: ChatMessage| m@) == self@,
    {
        &self.messages
    }
}

/// Stateful mode grows the history strictly and monotonically: each
/// successful exchange appends the prompt and the reply after the turns
/// already there, which all stay in place; and after a reset the record of
/// the next exchange starts from the new prompt alone, with no prior turns
/// before it.
pub proof fn lemma_history_monotone(
    h: Seq<ChatMessageView>,
    p1: ChatMessageView,
    r1: ChatMessageView,
    p2: ChatMessageView,
    r2: ChatMessageView,
)
    ensures
        recorded(h, p1, r1).len() > h.len(),
        recorded(recorded(h, p1, r1), p2, r2).len() > recorded(h, p1, r1).len(),
        recorded(h, p1, r1).take(h.len() as int) == h,
        recorded(Seq::<ChatMessageView>::empty(), p2, r2) == seq![p2, r2],
{
    assert(recorded(h, p1, r1).take(h.len() as int) =~= h);
    assert(recorded(Seq::<ChatMessageView>::empty(), p2, r2) =~= seq![p2, r2]);
}

} // verus!
