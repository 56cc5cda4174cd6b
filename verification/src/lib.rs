//! A client for a gateway that pushes events over one lasting connection:
//! the envelope codec, the event queue, and the session that takes a
//! connection from the server's hello through authentication and the steady
//! exchange of events and heartbeats to its end, and on to the next
//! connection where the session can be taken up again.
//!
//! The library decides and does no input or output of its own. A driver
//! opens the transport, reports each event to [`bot::Bot::step`], does what the
//! returned step asks, and calls [`bot::Bot::finish`] when a connection is over.
//!
//! - [`packet`]: the envelope and its wire form
//! - [`queue`]: the bounded queue of events that wait for the consumer
//! - [`bot`]: the session
//! - [`transition`]: the session as a state machine over mathematical values
//! - [`invariants`]: what is proved of that state machine
//! - [`backoff`]: when to connect again, and when to give up
//! - [`decimal`]: numbers as decimal text
//! - [`json`]: the JSON reader and writer that the codec calls
//! - [`error`]: what can go wrong
//! - [`models`]: the records of the message store

pub mod backoff;
pub mod bot;
pub mod decimal;
pub mod error;
pub mod invariants;
pub mod json;
pub mod models;
pub mod packet;
pub mod queue;
pub mod transition;
