use vstd::prelude::*;

use crate::error::{Action, Error};

verus! {

/// How a request sent to the task that owns a cursor came back.
#[derive(Debug)]
pub enum Delivery<I, E> {
    /// The task answered: an item, no item, or the error of its pull.
    Replied(Option<Result<I, Error<E>>>),
    /// The task is gone: its mailbox was closed, or it dropped the request
    /// without answering.
    Lost,
}

/// The result that the caller of a request receives: the task's answer with
/// the error moved outward, or the error that says the task is unavailable.
pub fn settle<I, E>(delivery: Delivery<I, E>) -> (r: Result<Option<I>, Error<E>>)
    ensures
        r == match delivery {
            Delivery::Replied(None) => Ok(None),
            Delivery::Replied(Some(Ok(item))) => Ok(Some(item)),
            Delivery::Replied(Some(Err(e))) => Err(e),
            Delivery::Lost => Err(Error::NoReply { action: Action::Searching }),
        },
{
    match delivery {
        Delivery::Replied(None) => Ok(None),
        Delivery::Replied(Some(Ok(item))) => Ok(Some(item)),
        Delivery::Replied(Some(Err(e))) => Err(e),
        Delivery::Lost => Err(Error::NoReply { action: Action::Searching }),
    }
}

} // verus!
