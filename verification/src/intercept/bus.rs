//! Message types of the bounded buses between the hook thread, the pipeline
//! worker and the alert window.
//!
//! Failure semantics live in the callers: a full trigger queue drops the
//! trigger (the next key triggers again); a full or closed alert queue means
//! the key must be passed (fail-open), never silently swallowed.

use vstd::prelude::*;
use vstd::string::*;

verus! {

/// Pipeline trigger kind.
#[derive(Debug, Clone, Copy, PartialEq, Eq, Structural)]
pub enum Trigger {
    /// Fast loop, triggered by input changes.
    Fast,
    /// Slow loop, triggered by window or pixel changes.
    Slow,
    /// Periodic heartbeat (capture + perceptual hash only).
    Heartbeat,
}

/// Why an alert message could not be queued; both require the caller to fail open.
#[derive(Debug, Clone, Copy, PartialEq, Eq, Structural)]
pub enum AlertBusError {
    /// Queue full: the alert window is not keeping up.
    Full,
    /// Channel closed: the front end has exited.
    Disconnected,
}

impl AlertBusError {
    pub open spec fn spec_text(self) -> Seq<char> {
        match self {
            AlertBusError::Full => "alert queue full"@,
            AlertBusError::Disconnected => "alert channel closed"@,
        }
    }

    /// The error's message (what its `Display` shows).
    pub fn message(&self) -> (m: String)
        ensures
            m@ == self.spec_text(),
    {
        match self {
            AlertBusError::Full => String::from_str("alert queue full"),
            AlertBusError::Disconnected => String::from_str("alert channel closed"),
        }
    }
}

} // verus!
