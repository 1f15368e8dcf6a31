use vstd::prelude::*;

verus! {

/// What the library was doing when an error came up.
#[derive(Debug, Clone, Copy, PartialEq, Eq, Structural)]
pub enum Action {
    /// Pulling the item at this position of a search.
    SearchPage(usize),
    /// Waiting for a search cursor to answer a request.
    Searching,
}

/// The errors that a search hands to the caller of a request.
#[derive(Debug)]
pub enum Error<E> {
    /// The remote call made for the request failed with `source`.
    Api { source: E, action: Action },
    /// The task that owns the cursor is gone: it took no request, or dropped
    /// it without answering.
    NoReply { action: Action },
}

} // verus!
