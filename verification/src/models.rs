//! The records of the message store: what a consumer keeps of an event.

use vstd::prelude::*;

verus! {

/// A message as the store holds it.
#[derive(Debug)]
pub struct Message {
    /// The key the store gave the record.
    pub id: i32,
    /// The identifier of the message.
    pub message_id: String,
    /// The text of the message.
    pub body: String,
}

/// A message on its way into the store.
#[derive(Debug)]
pub struct NewMessage<'a> {
    /// The identifier of the message.
    pub message_id: &'a str,
    /// The text of the message.
    pub body: &'a str,
}

} // verus!
