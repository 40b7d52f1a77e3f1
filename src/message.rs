use vstd::prelude::*;

verus! {

/// The mathematical value of a chat message: sender name and text.
pub struct MessageModel {
    pub user: Seq<char>,
    pub text: Seq<char>,
}

/// One chat message: who sent it and what they wrote.
#[derive(Clone, Debug)]
pub struct ChatMessage {
    pub user: String,
    pub text: String,
}

impl View for ChatMessage {
    type V = MessageModel;

    open spec fn view(&self) -> MessageModel {
        MessageModel { user: self.user@, text: self.text@ }
    }
}

impl ChatMessage {
    pub fn new(user: String, text: String) -> (r: ChatMessage)
        ensures
            r.user@ == user@,
            r.text@ == text@,
    {
        ChatMessage { user, text }
    }

    /// A copy of this message with the same sender and text.
    pub fn duplicate(&self) -> (r: ChatMessage)
        ensures
            r@ == self@,
    {
        ChatMessage { user: self.user.clone(), text: self.text.clone() }
    }
}

impl PartialEq for ChatMessage {
    fn eq(&self, o: &ChatMessage) -> (r: bool) {
        self.user == o.user && self.text == o.text
    }
}

impl vstd::std_specs::cmp::PartialEqSpecImpl for ChatMessage {
    open spec fn obeys_eq_spec() -> bool {
        true
    }

    open spec fn eq_spec(&self, o: &ChatMessage) -> bool {
        self@ == o@
    }
}

} // verus!
