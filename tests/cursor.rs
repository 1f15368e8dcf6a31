use std::collections::VecDeque;
use std::sync::Arc;

use yiffy_fun::{settle, Action, Cursor, Delivery, Error, Msg, Pulled, Step};

/// A remote source that yields a fixed list of outcomes, then ends.
struct Script {
    pulls: VecDeque<Result<&'static str, u32>>,
    made: usize,
}

impl Script {
    fn new(pulls: Vec<Result<&'static str, u32>>) -> Self {
        Script { pulls: pulls.into_iter().collect(), made: 0 }
    }

    fn pull(&mut self) -> Pulled<&'static str, u32> {
        self.made += 1;
        match self.pulls.pop_front() {
            Some(Ok(item)) => Pulled::Item(Arc::new(item)),
            Some(Err(e)) => Pulled::Failed(e),
            None => Pulled::Exhausted,
        }
    }
}

type Answer = Option<Result<Arc<&'static str>, Error<u32>>>;

/// Serves one request the way the task that owns a cursor does.
fn serve(cursor: &mut Cursor<&'static str>, source: &mut Script, msg: Msg) -> Answer {
    match cursor.begin(msg) {
        Step::Reply(item) => item.map(Ok),
        Step::Pull => {
            assert!(cursor.needs_pull(msg));
            cursor.complete(msg, source.pull())
        }
    }
}

fn item(answer: &Answer) -> Option<&'static str> {
    match answer {
        Some(Ok(x)) => Some(**x),
        None => None,
        Some(Err(e)) => panic!("unexpected error {:?}", e),
    }
}

#[test]
fn three_items_scenario() {
    let mut source = Script::new(vec![Ok("first"), Ok("second"), Ok("third")]);
    let mut cursor = Cursor::new();
    let mut ask = |msg| item(&serve(&mut cursor, &mut source, msg));
    assert_eq!(ask(Msg::Advance), Some("first"));
    assert_eq!(ask(Msg::Peek), Some("second"));
    assert_eq!(ask(Msg::Advance), Some("second"));
    assert_eq!(ask(Msg::Advance), Some("third"));
    assert_eq!(ask(Msg::Advance), None);
    assert_eq!(ask(Msg::Rewind), Some("second"));
    assert_eq!(ask(Msg::Rewind), Some("first"));
    assert_eq!(ask(Msg::Rewind), None);
    assert_eq!(ask(Msg::Rewind), None);
}

#[test]
fn advances_replay_the_source_in_order() {
    let names = ["a", "b", "c", "d", "e"];
    let mut source = Script::new(names.iter().map(|n| Ok(*n)).collect());
    let mut cursor = Cursor::new();
    for name in names {
        assert_eq!(item(&serve(&mut cursor, &mut source, Msg::Advance)), Some(name));
    }
    assert_eq!(cursor.position(), 5);
    assert_eq!(cursor.fetched(), 5);
    assert_eq!(item(&serve(&mut cursor, &mut source, Msg::Advance)), None);
    assert_eq!(cursor.position(), 5);
}

#[test]
fn peeking_repeatedly_returns_the_same_item() {
    let mut source = Script::new(vec![Ok("x"), Ok("y")]);
    let mut cursor = Cursor::new();
    for _ in 0..4 {
        assert_eq!(item(&serve(&mut cursor, &mut source, Msg::Peek)), Some("x"));
        assert_eq!(cursor.position(), 0);
    }
    assert_eq!(source.made, 1);
    assert_eq!(item(&serve(&mut cursor, &mut source, Msg::Advance)), Some("x"));
    assert_eq!(source.made, 1);
    assert_eq!(item(&serve(&mut cursor, &mut source, Msg::Advance)), Some("y"));
}

#[test]
fn peek_on_an_exhausted_source_gives_nothing_and_stays() {
    let mut source = Script::new(vec![]);
    let mut cursor = Cursor::new();
    assert_eq!(item(&serve(&mut cursor, &mut source, Msg::Peek)), None);
    assert_eq!(item(&serve(&mut cursor, &mut source, Msg::Peek)), None);
    assert_eq!(cursor.position(), 0);
    assert_eq!(cursor.fetched(), 0);
}

#[test]
fn rewind_then_advance_resumes_where_it_was() {
    let mut source = Script::new(vec![Ok("a"), Ok("b"), Ok("c"), Ok("d")]);
    let mut cursor = Cursor::new();
    assert_eq!(item(&serve(&mut cursor, &mut source, Msg::Advance)), Some("a"));
    assert_eq!(item(&serve(&mut cursor, &mut source, Msg::Advance)), Some("b"));
    assert_eq!(item(&serve(&mut cursor, &mut source, Msg::Advance)), Some("c"));
    assert_eq!(item(&serve(&mut cursor, &mut source, Msg::Rewind)), Some("b"));
    assert_eq!(cursor.position(), 2);
    assert_eq!(item(&serve(&mut cursor, &mut source, Msg::Advance)), Some("c"));
    assert_eq!(cursor.position(), 3);
    assert_eq!(source.made, 3);
    assert_eq!(item(&serve(&mut cursor, &mut source, Msg::Advance)), Some("d"));
}

#[test]
fn rewind_at_the_first_item_gives_nothing() {
    let mut source = Script::new(vec![Ok("a"), Ok("b")]);
    let mut cursor = Cursor::new();
    assert_eq!(item(&serve(&mut cursor, &mut source, Msg::Rewind)), None);
    assert_eq!(cursor.position(), 0);
    assert_eq!(item(&serve(&mut cursor, &mut source, Msg::Advance)), Some("a"));
    assert_eq!(item(&serve(&mut cursor, &mut source, Msg::Rewind)), None);
    assert_eq!(cursor.position(), 0);
    assert_eq!(item(&serve(&mut cursor, &mut source, Msg::Advance)), Some("a"));
    assert_eq!(item(&serve(&mut cursor, &mut source, Msg::Advance)), Some("b"));
}

#[test]
fn failed_pull_keeps_the_position_and_is_retried() {
    let mut source = Script::new(vec![Ok("a"), Err(503), Ok("b")]);
    let mut cursor = Cursor::new();
    assert_eq!(item(&serve(&mut cursor, &mut source, Msg::Advance)), Some("a"));
    match serve(&mut cursor, &mut source, Msg::Advance) {
        Some(Err(Error::Api { source: 503, action: Action::SearchPage(1) })) => {}
        other => panic!("expected the pull error, got {:?}", other),
    }
    assert_eq!(cursor.position(), 1);
    assert_eq!(cursor.fetched(), 1);
    assert_eq!(item(&serve(&mut cursor, &mut source, Msg::Advance)), Some("b"));
    assert_eq!(cursor.position(), 2);
}

#[test]
fn failed_peek_is_reported_without_moving() {
    let mut source = Script::new(vec![Err(7)]);
    let mut cursor = Cursor::new();
    match serve(&mut cursor, &mut source, Msg::Peek) {
        Some(Err(Error::Api { source: 7, action: Action::SearchPage(0) })) => {}
        other => panic!("expected the pull error, got {:?}", other),
    }
    assert_eq!(cursor.position(), 0);
    assert_eq!(cursor.fetched(), 0);
}

#[test]
fn served_items_share_the_buffered_allocation() {
    let mut cursor: Cursor<String> = Cursor::new();
    let first = Arc::new(String::from("only"));
    assert!(matches!(cursor.begin(Msg::Peek), Step::Pull));
    let pulled = cursor.complete::<u32>(Msg::Peek, Pulled::Item(Arc::clone(&first)));
    match pulled {
        Some(Ok(x)) => assert!(Arc::ptr_eq(&x, &first)),
        other => panic!("expected the item, got {:?}", other),
    }
    match cursor.begin(Msg::Advance) {
        Step::Reply(Some(x)) => {
            assert!(Arc::ptr_eq(&x, &first));
            assert_eq!(*x, "only");
        }
        other => panic!("expected a buffered item, got {:?}", other),
    }
    assert_eq!(cursor.position(), 1);
}

#[test]
fn settle_moves_the_error_outward() {
    let ok: Result<Option<u8>, Error<u32>> = settle(Delivery::Replied(Some(Ok(4))));
    assert!(matches!(ok, Ok(Some(4))));
    let none: Result<Option<u8>, Error<u32>> = settle(Delivery::Replied(None));
    assert!(matches!(none, Ok(None)));
    let failed: Result<Option<u8>, Error<u32>> = settle(Delivery::Replied(Some(Err(Error::Api {
        source: 9,
        action: Action::SearchPage(3),
    }))));
    assert!(matches!(failed, Err(Error::Api { source: 9, action: Action::SearchPage(3) })));
}

#[test]
fn settle_reports_a_lost_request_as_unavailable() {
    let lost: Result<Option<u8>, Error<u32>> = settle(Delivery::Lost);
    assert!(matches!(lost, Err(Error::NoReply { action: Action::Searching })));
}
