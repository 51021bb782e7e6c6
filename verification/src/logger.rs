//! The state of the process-wide logger: whether it has been set up.

use vstd::prelude::*;

verus! {

/// Keeps the logger from being set up twice.
#[derive(Debug)]
pub struct Logger {
    has_init: bool,
}

impl Logger {
    /// The logger has been set up.
    pub closed spec fn initialized(&self) -> bool {
        self.has_init
    }

    /// A logger that is yet to be set up.
    pub fn new() -> (logger: Logger)
        ensures
            !logger.initialized(),
    {
        Logger { has_init: false }
    }

    /// Whether the logger has been set up.
    pub fn has_init(&self) -> (done: bool)
        ensures
            done == self.initialized(),
    {
        self.has_init
    }

    /// Marks the logger as set up. Returns whether the caller is to set it
    /// up now: exactly on the first call.
    pub fn init(&mut self) -> (first: bool)
        ensures
            first == !old(self).initialized(),
            final(self).initialized(),
    {
        if self.has_init {
            return false;
        }
        self.has_init = true;
        true
    }
}

} // verus!
