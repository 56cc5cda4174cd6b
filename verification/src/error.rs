//! The ways a gateway session can go wrong.

use vstd::prelude::*;

verus! {

/// What went wrong. Whether an error ends the run depends on the phase in
/// which it is met.
#[derive(Clone, Copy, Debug, PartialEq, Eq, Structural)]
pub enum GatewayError {
    /// The text received is no valid envelope.
    MalformedEnvelope,
    /// An envelope that the protocol demands at this point did not come.
    ProtocolViolation,
    /// The server did not acknowledge a heartbeat before the next one was due.
    LivenessTimeout,
    /// The server says that the session cannot be resumed.
    SessionInvalidated,
    /// Sending or receiving failed in the transport.
    TransportError,
    /// The event queue is full; the arriving envelope was dropped.
    QueueOverflow,
}

/// The words for `error`.
pub open spec fn error_text(error: GatewayError) -> Seq<char> {
    match error {
        GatewayError::MalformedEnvelope => "malformed envelope"@,
        GatewayError::ProtocolViolation => "protocol violation"@,
        GatewayError::LivenessTimeout => "liveness timeout"@,
        GatewayError::SessionInvalidated => "session invalidated"@,
        GatewayError::TransportError => "transport error"@,
        GatewayError::QueueOverflow => "queue overflow"@,
    }
}

impl GatewayError {
    /// The error in words, for a log or a report.
    pub fn message(&self) -> (r: &'static str)
        ensures
            r@ == error_text(*self),
    {
        match self {
            GatewayError::MalformedEnvelope => "malformed envelope",
            GatewayError::ProtocolViolation => "protocol violation",
            GatewayError::LivenessTimeout => "liveness timeout",
            GatewayError::SessionInvalidated => "session invalidated",
            GatewayError::TransportError => "transport error",
            GatewayError::QueueOverflow => "queue overflow",
        }
    }
}

} // verus!
