//! Chat messages extracted from the server's output.

use vstd::prelude::*;

verus! {

/// One chat line a player wrote, as the classifier recovered it.
#[derive(Debug, Clone, PartialEq, Eq)]
pub struct ChatMessage {
    pub author: String,
    pub message: String,
}

/// The mathematical value of a `ChatMessage`.
pub ghost struct ChatMessageView {
    pub author: Seq<char>,
    pub message: Seq<char>,
}

impl View for ChatMessage {
    type V = ChatMessageView;

    open spec fn view(&self) -> ChatMessageView {
        ChatMessageView { author: self.author@, message: self.message@ }
    }
}

impl ChatMessage {
    /// A field-for-field copy.
    pub fn duplicate(&self) -> (r: Self)
        ensures
            r == *self,
    {
        ChatMessage { author: self.author.clone(), message: self.message.clone() }
    }
}

} // verus!
