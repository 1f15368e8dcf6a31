use std::sync::Arc;
use vstd::prelude::*;

use crate::error::{Action, Error};

verus! {

/// A request that the owner of a cursor serves.
#[derive(Debug, Clone, Copy, PartialEq, Eq, Structural)]
pub enum Msg {
    /// The item that the next `Advance` would return, without moving.
    Peek,
    /// The item at the position, moving past it when there is one.
    Advance,
    /// Step back and return the item before the new position.
    Rewind,
}

/// What one pull from the remote source produced.
#[derive(Debug)]
pub enum Pulled<T, E> {
    /// The next item of the stream.
    Item(Arc<T>),
    /// The remote call failed.
    Failed(E),
    /// The stream has no more items.
    Exhausted,
}

/// What a request needs once the history buffer has been consulted.
#[derive(Debug)]
pub enum Step<T> {
    /// The reply is known: serve it.
    Reply(Option<Arc<T>>),
    /// The buffer holds nothing at the position: pull one item from the
    /// remote source and hand the outcome to `Cursor::complete`.
    Pull,
}

/// The abstract state of a cursor: every item fetched so far, in the order it
/// came, and the index of the item that the next `Advance` serves.
pub struct CursorModel<T> {
    pub history: Seq<Arc<T>>,
    pub position: nat,
}

impl<T> CursorModel<T> {
    /// A fresh cursor: nothing fetched, nothing served.
    pub open spec fn empty() -> Self {
        CursorModel { history: Seq::empty(), position: 0 }
    }

    /// The position never runs past what has been fetched.
    pub open spec fn wf(self) -> bool {
        self.position <= self.history.len()
    }

    /// The request cannot be served from the buffer: it needs a pull.
    pub open spec fn needs_pull(self, msg: Msg) -> bool {
        msg != Msg::Rewind && self.position >= self.history.len()
    }

    /// The same history, at another position.
    pub open spec fn with_position(self, position: nat) -> Self {
        CursorModel { history: self.history, position }
    }
}

/// The buffered part of a request: the state after it and what it needs.
///
/// `Rewind` at position 0, or on an empty buffer, changes nothing; at position
/// 1 it moves to 0 with no item; further on it steps back by one and returns
/// the item one below the new position. `Peek` and `Advance` are served from
/// the buffer when it holds the item at the position, `Advance` moving past
/// it; otherwise they need a pull.
pub open spec fn begin_spec<T>(m: CursorModel<T>, msg: Msg) -> (CursorModel<T>, Step<T>) {
    match msg {
        Msg::Rewind => {
            if m.history.len() == 0 || m.position == 0 {
                (m, Step::Reply(None))
            } else if m.position == 1 {
                (m.with_position(0), Step::Reply(None))
            } else {
                (
                    m.with_position((m.position - 1) as nat),
                    Step::Reply(Some(m.history[m.position - 2])),
                )
            }
        },
        Msg::Peek => {
            if m.position < m.history.len() {
                (m, Step::Reply(Some(m.history[m.position as int])))
            } else {
                (m, Step::Pull)
            }
        },
        Msg::Advance => {
            if m.position < m.history.len() {
                (m.with_position(m.position + 1), Step::Reply(Some(m.history[m.position as int])))
            } else {
                (m, Step::Pull)
            }
        },
    }
}

/// The error that a failed pull at position `position` is reported as.
pub open spec fn pull_error<E>(source: E, position: nat) -> Error<E> {
    Error::Api { source, action: Action::SearchPage(position as usize) }
}

/// A pull finishes a `Peek` or `Advance` that the buffer could not serve.
///
/// A new item is appended to the history and served, and only an `Advance`
/// moves past it. A failure is reported and an exhausted stream gives no
/// item; neither changes the cursor, so a retry resumes at the same place.
pub open spec fn complete_spec<T, E>(m: CursorModel<T>, msg: Msg, pulled: Pulled<T, E>) -> (
    CursorModel<T>,
    Option<Result<Arc<T>, Error<E>>>,
) {
    match pulled {
        Pulled::Item(item) => {
            let position = if msg == Msg::Advance {
                m.position + 1
            } else {
                m.position
            };
            (CursorModel { history: m.history.push(item), position }, Some(Ok(item)))
        },
        Pulled::Failed(e) => (m, Some(Err(pull_error(e, m.position)))),
        Pulled::Exhausted => (m, None),
    }
}

/// A growing history of fetched items and the position of the next one to
/// serve, with the rules for peeking, advancing and rewinding over it.
#[derive(Debug)]
pub struct Cursor<T> {
    history: Vec<Arc<T>>,
    position: usize,
}

impl<T> View for Cursor<T> {
    type V = CursorModel<T>;

    closed spec fn view(&self) -> CursorModel<T> {
        CursorModel { history: self.history@, position: self.position as nat }
    }
}

/// Relies on `Arc::clone`: the new pointer shares the allocation, so it holds
/// the very same value.
#[verifier::external_body]
fn share<T>(item: &Arc<T>) -> (r: Arc<T>)
    ensures
        r == *item,
{
    Arc::clone(item)
}

impl<T> Cursor<T> {
    pub open spec fn wf(&self) -> bool {
        self@.wf()
    }

    /// A cursor with an empty history, at position 0.
    pub fn new() -> (r: Self)
        ensures
            r@ == CursorModel::<T>::empty(),
            r.wf(),
    {
        Cursor { history: Vec::new(), position: 0 }
    }

    /// The index of the item that the next `Advance` serves.
    pub fn position(&self) -> (r: usize)
        ensures
            r == self@.position,
    {
        self.position
    }

    /// How many items have been fetched so far.
    pub fn fetched(&self) -> (r: usize)
        ensures
            r == self@.history.len(),
    {
        self.history.len()
    }

    /// Whether `msg` cannot be served from the buffer and needs a pull.
    pub fn needs_pull(&self, msg: Msg) -> (r: bool)
        ensures
            r == self@.needs_pull(msg),
    {
        msg != Msg::Rewind && self.position >= self.history.len()
    }

    /// Serves `msg` from the buffer where it can, and says when a pull from
    /// the remote source is needed instead.
    pub fn begin(&mut self, msg: Msg) -> (r: Step<T>)
        requires
            old(self).wf(),
        ensures
            final(self).wf(),
            (final(self)@, r) == begin_spec(old(self)@, msg),
            r is Pull <==> old(self)@.needs_pull(msg),
    {
        match msg {
            Msg::Rewind => {
                if self.history.len() == 0 || self.position == 0 {
                    Step::Reply(None)
                } else if self.position == 1 {
                    self.position = 0;
                    Step::Reply(None)
                } else {
                    self.position = self.position - 1;
                    Step::Reply(Some(share(&self.history[self.position - 1])))
                }
            },
            Msg::Peek | Msg::Advance => {
                if self.position < self.history.len() {
                    let item = share(&self.history[self.position]);
                    if msg == Msg::Advance {
                        self.position = self.position + 1;
                    }
                    Step::Reply(Some(item))
                } else {
                    Step::Pull
                }
            },
        }
    }

    /// Finishes a `Peek` or `Advance` for which `begin` asked for a pull, with
    /// what the pull produced.
    pub fn complete<E>(&mut self, msg: Msg, pulled: Pulled<T, E>) -> (r: Option<
        Result<Arc<T>, Error<E>>,
    >)
        requires
            old(self).wf(),
            old(self)@.needs_pull(msg),
        ensures
            final(self).wf(),
            (final(self)@, r) == complete_spec(old(self)@, msg, pulled),
    {
        match pulled {
            Pulled::Item(item) => {
                self.history.push(share(&item));
                if msg == Msg::Advance {
                    // The new item sits at the old position, which was the old
                    // length: moving past it puts the position at the new length.
                    self.position = self.history.len();
                }
                Some(Ok(item))
            },
            Pulled::Failed(e) => Some(
                Err(Error::Api { source: e, action: Action::SearchPage(self.position) }),
            ),
            Pulled::Exhausted => None,
        }
    }
}

} // verus!
