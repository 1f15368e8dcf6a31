use std::sync::Arc;
use vstd::prelude::*;

use crate::cursor::{begin_spec, complete_spec, CursorModel, Msg, Pulled, Step};
use crate::error::Error;

verus! {

/// A cursor together with what its remote source will still produce: the
/// outcomes of the coming pulls, in order. Once they are used up, every
/// further pull reports the end of the stream.
pub struct Session<T, E> {
    pub cursor: CursorModel<T>,
    pub source: Seq<Result<Arc<T>, E>>,
}

/// The reply that a request delivers to its caller.
pub type Answer<T, E> = Option<Result<Arc<T>, Error<E>>>;

/// One pull from the source, and the source after it.
pub open spec fn pull_spec<T, E>(source: Seq<Result<Arc<T>, E>>) -> (
    Pulled<T, E>,
    Seq<Result<Arc<T>, E>>,
) {
    if source.len() == 0 {
        (Pulled::Exhausted, source)
    } else {
        match source[0] {
            Ok(item) => (Pulled::Item(item), source.drop_first()),
            Err(e) => (Pulled::Failed(e), source.drop_first()),
        }
    }
}

/// One request served whole: from the buffer, or with exactly one pull.
pub open spec fn request<T, E>(s: Session<T, E>, msg: Msg) -> (Session<T, E>, Answer<T, E>) {
    let begun = begin_spec(s.cursor, msg);
    match begun.1 {
        Step::Reply(item) => (
            Session { cursor: begun.0, source: s.source },
            match item {
                Some(x) => Some(Ok(x)),
                None => None,
            },
        ),
        Step::Pull => {
            let pulled = pull_spec(s.source);
            let done = complete_spec(begun.0, msg, pulled.0);
            (Session { cursor: done.0, source: pulled.1 }, done.1)
        },
    }
}

/// Requests served one after the other, with the replies in the same order.
pub open spec fn run<T, E>(s: Session<T, E>, msgs: Seq<Msg>) -> (Session<T, E>, Seq<Answer<T, E>>)
    decreases msgs.len(),
{
    if msgs.len() == 0 {
        (s, Seq::empty())
    } else {
        let first = request(s, msgs[0]);
        let rest = run(first.0, msgs.drop_first());
        (rest.0, seq![first.1] + rest.1)
    }
}

/// `n` copies of one request.
pub open spec fn repeat(msg: Msg, n: nat) -> Seq<Msg> {
    Seq::new(n, |_i: int| msg)
}

/// A source whose pulls all succeed, with these items.
pub open spec fn yielding<T, E>(items: Seq<Arc<T>>) -> Seq<Result<Arc<T>, E>> {
    items.map_values(|x: Arc<T>| Ok(x))
}

/// The replies that serve these items, one per request.
pub open spec fn served<T, E>(items: Seq<Arc<T>>) -> Seq<Answer<T, E>> {
    items.map_values(|x: Arc<T>| Some(Ok(x)))
}

/// Every request keeps the cursor well formed and the history append-only: it
/// never shrinks or reorders, and grows by exactly one when a pull produced an
/// item. Only an `Advance` moves the position forward, by one; a `Peek` never
/// moves it.
pub proof fn lemma_request_keeps_history<T, E>(s: Session<T, E>, msg: Msg)
    requires
        s.cursor.wf(),
    ensures
        ({
            let (s1, r) = request(s, msg);
            &&& s1.cursor.wf()
            &&& s1.cursor.history.subrange(0, s.cursor.history.len() as int) == s.cursor.history
            &&& s1.cursor.history.len() == s.cursor.history.len() + 1 <==> (s.cursor.needs_pull(
                msg,
            ) && s.source.len() > 0 && s.source[0] is Ok)
            &&& s1.cursor.history.len() <= s.cursor.history.len() + 1
            &&& msg == Msg::Peek ==> s1.cursor.position == s.cursor.position
            &&& msg == Msg::Rewind ==> s1.cursor.position <= s.cursor.position
            &&& msg == Msg::Advance ==> s1.cursor.position == s.cursor.position + (if r matches Some(
                Ok(_),
            ) {
                1int
            } else {
                0int
            })
        }),
{
    let s1 = request(s, msg).0;
    assert(s1.cursor.history.subrange(0, s.cursor.history.len() as int) =~= s.cursor.history);
}

/// With a source that yields only items, advancing serves what is left of the
/// history and then the source's items, one per request and in order, and
/// ends with everything served.
pub proof fn lemma_advance_serves_in_order<T, E>(s: Session<T, E>, items: Seq<Arc<T>>)
    requires
        s.cursor.wf(),
        s.source == yielding::<T, E>(items),
    ensures
        ({
            let h = s.cursor.history;
            let k = (h.len() - s.cursor.position) + items.len();
            let (s1, replies) = run(s, repeat(Msg::Advance, k as nat));
            &&& replies == served::<T, E>(h.subrange(s.cursor.position as int, h.len() as int) + items)
            &&& s1.cursor.history == h + items
            &&& s1.cursor.position == s1.cursor.history.len()
            &&& s1.source.len() == 0
        }),
    decreases (s.cursor.history.len() - s.cursor.position) + items.len(),
{
    let h = s.cursor.history;
    let p = s.cursor.position;
    let k = ((h.len() - p) + items.len()) as nat;
    let msgs = repeat(Msg::Advance, k);
    if k == 0 {
        assert(h.subrange(p as int, h.len() as int) + items =~= Seq::<Arc<T>>::empty());
        assert(h + items =~= h);
        assert(served::<T, E>(Seq::<Arc<T>>::empty()) =~= Seq::<Answer<T, E>>::empty());
    } else {
        assert(msgs.drop_first() =~= repeat(Msg::Advance, (k - 1) as nat));
        let (s1, r) = request(s, Msg::Advance);
        if p < h.len() {
            assert(s1.source == s.source);
            lemma_advance_serves_in_order::<T, E>(s1, items);
            let rest = h.subrange(p + 1int, h.len() as int) + items;
            assert(h.subrange(p as int, h.len() as int) + items =~= seq![h[p as int]] + rest);
            assert(served::<T, E>(seq![h[p as int]] + rest) =~= seq![r] + served::<T, E>(rest));
        } else {
            let tail = items.drop_first();
            assert(s.source[0] == Ok::<Arc<T>, E>(items[0]));
            assert(s1.source =~= yielding::<T, E>(tail));
            lemma_advance_serves_in_order::<T, E>(s1, tail);
            assert(s1.cursor.history == h.push(items[0]));
            assert(s1.cursor.history.subrange(
                s1.cursor.position as int,
                s1.cursor.history.len() as int,
            ) =~= Seq::<Arc<T>>::empty());
            assert(h.subrange(p as int, h.len() as int) + items =~= seq![items[0]] + tail);
            assert(Seq::<Arc<T>>::empty() + tail =~= tail);
            assert(served::<T, E>(seq![items[0]] + tail) =~= seq![r] + served::<T, E>(tail));
            assert(h.push(items[0]) + tail =~= h + items);
        }
    }
}

/// A fresh cursor over a source that yields the items I1..In with no error
/// serves I1..In, in that order, to n consecutive `Advance` requests.
pub proof fn lemma_monotonic_replay<T, E>(items: Seq<Arc<T>>)
    ensures
        run(
            Session { cursor: CursorModel::<T>::empty(), source: yielding::<T, E>(items) },
            repeat(Msg::Advance, items.len()),
        ).1 == served::<T, E>(items),
{
    let s = Session { cursor: CursorModel::<T>::empty(), source: yielding::<T, E>(items) };
    lemma_advance_serves_in_order::<T, E>(s, items);
    assert(Seq::<Arc<T>>::empty().subrange(0, 0) + items =~= items);
}

/// A `Peek` that did not fail is idempotent: peeking again any number of
/// times returns the same reply and changes nothing, and the next `Advance`
/// behaves exactly as it would have without the peeks, returning that item.
pub proof fn lemma_peek_idempotent<T, E>(s: Session<T, E>, k: nat)
    requires
        s.cursor.wf(),
        !(request(s, Msg::Peek).1 matches Some(Err(_))),
    ensures
        ({
            let (s1, r1) = request(s, Msg::Peek);
            &&& run(s1, repeat(Msg::Peek, k)) == (s1, Seq::new(k, |_i: int| r1))
            &&& request(s1, Msg::Advance) == request(s, Msg::Advance)
            &&& request(s, Msg::Advance).1 == r1
        }),
    decreases k,
{
    let (s1, r1) = request(s, Msg::Peek);
    assert(request(s1, Msg::Peek) == (s1, r1));
    if k > 0 {
        lemma_peek_idempotent::<T, E>(s, (k - 1) as nat);
        assert(repeat(Msg::Peek, k).drop_first() =~= repeat(Msg::Peek, (k - 1) as nat));
        assert(Seq::new(k, |_i: int| r1) =~= seq![r1] + Seq::new((k - 1) as nat, |_i: int| r1));
    } else {
        assert(Seq::new(k, |_i: int| r1) =~= Seq::<Answer<T, E>>::empty());
    }
}

/// After an `Advance` that served an item, a `Rewind` followed by an `Advance`
/// serves that same item again and leaves the cursor and the source exactly as
/// the first `Advance` left them: the `Advance` after that serves what it would
/// have served with no rewind, so no item is skipped or served twice over.
pub proof fn lemma_rewind_then_resume<T, E>(s: Session<T, E>)
    requires
        s.cursor.wf(),
        request(s, Msg::Advance).1 matches Some(Ok(_)),
    ensures
        ({
            let (s1, r1) = request(s, Msg::Advance);
            let s2 = request(s1, Msg::Rewind).0;
            let (s3, r3) = request(s2, Msg::Advance);
            &&& s3 == s1
            &&& r3 == r1
            &&& request(s3, Msg::Advance) == request(s1, Msg::Advance)
        }),
{
    let (s1, r1) = request(s, Msg::Advance);
    let p = s.cursor.position;
    assert(s1.cursor.position == p + 1);
    assert(s1.cursor.history.len() > p);
    if p >= s.cursor.history.len() {
        assert(s1.cursor.history[p as int] == s1.cursor.history.last());
    }
    let s2 = request(s1, Msg::Rewind).0;
    assert(s2.cursor.position == p);
    assert(s2.cursor.history == s1.cursor.history);
    assert(s2.source == s1.source);
}

/// An `Advance` whose pull failed leaves the cursor unchanged, so the next
/// `Advance` retries the same position: an item it serves is placed at that
/// position and served from there.
pub proof fn lemma_no_skip_on_failure<T, E>(s: Session<T, E>)
    requires
        s.cursor.wf(),
        request(s, Msg::Advance).1 matches Some(Err(_)),
    ensures
        ({
            let s1 = request(s, Msg::Advance).0;
            let (s2, r2) = request(s1, Msg::Advance);
            &&& s1.cursor == s.cursor
            &&& s1.source == s.source.drop_first()
            &&& r2 matches Some(Ok(item)) ==> {
                &&& s2.cursor.history[s.cursor.position as int] == item
                &&& s2.cursor.position == s.cursor.position + 1
            }
        }),
{
}

} // verus!
