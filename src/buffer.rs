use vstd::prelude::*;

use crate::message::{Message, Role};

verus! {

/// The ordered log of a conversation's messages. Messages are only ever
/// appended; the order of appends is the order of the log.
#[derive(Debug)]
pub struct ConversationBuffer {
    messages: Vec<Message>,
}

impl View for ConversationBuffer {
    type V = Seq<Message>;

    closed spec fn view(&self) -> Seq<Message> {
        self.messages@
    }
}

/// A deep copy of a sequence of messages.
pub fn copy_messages(src: &Vec<Message>) -> (r: Vec<Message>)
    ensures
        r@ == src@,
{
    let mut out: Vec<Message> = Vec::with_capacity(src.len());
    let mut i: usize = 0;
    while i < src.len()
        invariant
            i <= src@.len(),
            out@ == src@.subrange(0, i as int),
        decreases src@.len() - i,
    {
        out.push(src[i].clone());
        i = i + 1;
        assert(out@ =~= src@.subrange(0, i as int));
    }
    assert(out@ =~= src@);
    out
}

impl Clone for ConversationBuffer {
    /// A deep copy, sharing no storage with `self`.
    fn clone(&self) -> (r: Self)
        ensures
            r@ == self@,
    {
        ConversationBuffer { messages: copy_messages(&self.messages) }
    }
}

impl ConversationBuffer {
    /// An empty conversation.
    pub fn new() -> (r: ConversationBuffer)
        ensures
            r@ == Seq::<Message>::empty(),
    {
        ConversationBuffer { messages: Vec::new() }
    }

    /// A conversation holding `messages`, in their order.
    pub fn from_messages(messages: Vec<Message>) -> (r: ConversationBuffer)
        ensures
            r@ == messages@,
    {
        ConversationBuffer { messages }
    }

    /// Adds `message` at the end of the conversation.
    pub fn push(&mut self, message: Message)
        ensures
            final(self)@ == old(self)@.push(message),
    {
        self.messages.push(message);
    }

    /// Adds a message of `role` with the text `content` at the end.
    pub fn append(&mut self, role: Role, content: &str)
        ensures
            final(self)@.len() == old(self)@.len() + 1,
            final(self)@.drop_last() == old(self)@,
            final(self)@.last().role == role,
            final(self)@.last().content@ == content@,
    {
        let m = Message::new(role, content);
        self.messages.push(m);
        assert(self@.drop_last() =~= old(self)@);
    }

    /// Removes every message.
    pub fn clear(&mut self)
        ensures
            final(self)@ == Seq::<Message>::empty(),
    {
        self.messages.clear();
    }

    /// The number of messages.
    pub fn len(&self) -> (r: usize)
        ensures
            r == self@.len(),
    {
        self.messages.len()
    }

    /// The messages, oldest first.
    pub fn messages(&self) -> (r: &Vec<Message>)
        ensures
            r@ == self@,
    {
        &self.messages
    }
}

} // verus!
