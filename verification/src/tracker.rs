//! The events the optional activity recorder consumes. The recorder
//! itself (its database and tasks) lives outside this crate; only the
//! event vocabulary is part of the core.

use vstd::prelude::*;

verus! {

/// One recorder event: a roster observation (client id, unique id,
/// nickname, channel), or the end of the stream.
#[derive(Clone, Debug)]
pub enum Event {
    Insert(i32, Option<String>, Option<String>, Option<i32>),
    Terminate,
}

impl Event {
    /// Whether this event ends the recorder's stream.
    pub fn is_terminate(&self) -> (r: bool)
        ensures
            r == (self is Terminate),
    {
        matches!(self, Event::Terminate)
    }
}

} // verus!
