//! The way from a widget up to the application.
use vstd::prelude::*;

verus! {

/// The messages that the widgets have for the application, in the order in
/// which they were published.
pub struct Shell<Message> {
    messages: Vec<Message>,
}

impl<Message> View for Shell<Message> {
    type V = Seq<Message>;

    closed spec fn view(&self) -> Seq<Message> {
        self.messages@
    }
}

impl<Message> Shell<Message> {
    /// Creates a shell that holds no message.
    pub fn new() -> (shell: Self)
        ensures
            shell@ == Seq::<Message>::empty(),
    {
        Shell { messages: Vec::new() }
    }

    /// Publishes `message` behind those that are there.
    pub fn publish(&mut self, message: Message)
        ensures
            final(self)@ == old(self)@.push(message),
    {
        self.messages.push(message);
    }

    /// Hands the messages over to the application.
    pub fn into_messages(self) -> (messages: Vec<Message>)
        ensures
            messages@ == self@,
    {
        self.messages
    }
}

} // verus!
