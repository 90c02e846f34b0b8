//! The engine handle: one instance of the engine, created once and closed
//! exactly once.

use vstd::prelude::*;

verus! {

/// The handle of one engine instance, by its address. A closed instance
/// has no address.
#[derive(Debug)]
pub struct State {
    handle: usize,
}

impl State {
    /// The address of the open instance, or zero once it is closed.
    pub closed spec fn handle(&self) -> usize {
        self.handle
    }

    /// Whether the instance has been closed.
    pub open spec fn is_closed(&self) -> bool {
        self.handle() == 0
    }

    /// The handle for the instance that the engine allocated at `handle`.
    /// An allocation that failed has no handle.
    pub fn new(handle: usize) -> (state: State)
        requires
            handle != 0,
        ensures
            state.handle() == handle,
            !state.is_closed(),
    {
        State { handle }
    }

    /// Closes the instance: gives the address to release, the first time,
    /// and nothing on every later call.
    pub fn destroy(&mut self) -> (release: Option<usize>)
        ensures
            final(self).is_closed(),
            release == (if old(self).is_closed() {
                None
            } else {
                Some(old(self).handle())
            }),
    {
        if self.handle == 0 {
            None
        } else {
            let handle = self.handle;
            self.handle = 0;
            Some(handle)
        }
    }

    /// The address of the instance, or zero once it is closed.
    #[allow(non_snake_case)]
    pub fn L(&self) -> (handle: usize)
        ensures
            handle == self.handle(),
    {
        self.handle
    }
}

} // verus!
