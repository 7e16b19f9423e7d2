//! Messages sent to a queue.

use vstd::prelude::*;
use crate::messaging::TextMap;

verus! {

/// A message that names the queue it goes to.
pub trait Message: Sized {
    /// The name of the queue.
    const QUEUE_NAME: &'static str;

    /// The text of the message.
    fn body(self) -> String;

    /// The message's attributes, by name, handed out once: the message keeps
    /// none afterwards.
    fn attributes(&mut self) -> Option<TextMap>;
}

/// A message about a user, sent to the `Customers` queue.
pub struct UserMessage {
    pub body: String,
    pub attributes: Option<TextMap>,
}

impl UserMessage {
    /// A message with this text and no attributes.
    pub fn new(body: String) -> (r: Self)
        ensures
            r.body == body,
            r.attributes is None,
    {
        UserMessage { body, attributes: None }
    }
}

impl Message for UserMessage {
    const QUEUE_NAME: &'static str = "Customers";

    fn body(self) -> (r: String)
        ensures
            r == self.body,
    {
        self.body
    }

    fn attributes(&mut self) -> (r: Option<TextMap>)
        ensures
            r == old(self).attributes,
            final(self).attributes is None,
            final(self).body == old(self).body,
    {
        self.attributes.take()
    }
}

} // verus!
