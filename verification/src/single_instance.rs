//! Single-instance lock outcome.
//!
//! The platform layer creates a named mutex; this module decides, from the
//! outcome of that call, whether this process is the only instance. Creation
//! failure is treated fail-open (this process proceeds as the owner): better a
//! second instance than blocking the user's start-up.

use vstd::prelude::*;

verus! {

/// Single-instance lock result; must be held until the process ends.
#[derive(Debug)]
pub struct InstanceLock {
    acquired: bool,
}

impl View for InstanceLock {
    type V = bool;

    closed spec fn view(&self) -> bool {
        self.acquired
    }
}

impl InstanceLock {
    /// Decide ownership from the mutex creation outcome: created and not
    /// pre-existing means owner; pre-existing means another instance runs;
    /// failed creation means owner (fail-open).
    pub fn from_creation(created: bool, already_exists: bool) -> (l: InstanceLock)
        ensures
            l@ == (!created || !already_exists),
    {
        if created {
            InstanceLock { acquired: !already_exists }
        } else {
            InstanceLock { acquired: true }
        }
    }

    /// Whether this process holds the lock (true = the only instance).
    pub fn is_owner(&self) -> (b: bool)
        ensures
            b == self@,
    {
        self.acquired
    }
}

} // verus!
