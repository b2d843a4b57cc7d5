//! The one-time start of the network subsystem.
//!
//! The native layer wants its network subsystem started once in the life of
//! a process, before the first descriptor is asked for, and this layer never
//! stops it again. A [`Startup`] is the flag that remembers whether that was
//! done. A process keeps one, behind whatever lock its threads need, and
//! hands it to every [`crate::socket::Socket::new`].

use vstd::prelude::*;

verus! {

/// Whether the network subsystem was started.
#[derive(Debug)]
pub struct Startup {
    done: bool,
}

impl Startup {
    /// Whether the start was asked for already.
    pub closed spec fn done(&self) -> bool {
        self.done
    }

    /// The flag of a process that has not started the subsystem yet.
    pub fn new() -> (s: Startup)
        ensures
            !s.done(),
    {
        Startup { done: false }
    }

    /// Tells whether the start was asked for already.
    pub fn is_done(&self) -> (b: bool)
        ensures
            b == self.done(),
    {
        self.done
    }

    /// Says whether the caller has to start the subsystem now. This is so
    /// the first time and never again.
    pub fn begin(&mut self) -> (first: bool)
        ensures
            first == !old(self).done(),
            final(self).done(),
    {
        let first = !self.done;
        self.done = true;
        first
    }
}

} // verus!
