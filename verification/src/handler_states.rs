//! The steps of building a connection to PipeWire, and the data a stream
//! listener carries.

use vstd::prelude::*;

verus! {

/// The connection builder waits for its loop.
pub struct NeedMainLoop;

/// The connection builder waits for its context.
pub struct NeedContext;

/// The connection builder waits for its core.
pub struct NeedCore;

/// The connection builder holds a loop, a context and a core.
pub struct Ready;

/// The data a stream listener carries between its callbacks.
pub struct UserData<T> {
    info: T,
}

impl<T> UserData<T> {
    /// Listener data holding `info`.
    pub fn new(info: T) -> (r: Self)
        ensures r.info() == info,
    {
        UserData { info }
    }

    /// What the data holds.
    pub closed spec fn info(&self) -> T {
        self.info
    }

    /// What the data holds.
    pub fn get_info(&self) -> (r: &T)
        ensures *r == self.info(),
    {
        &self.info
    }
}

} // verus!
