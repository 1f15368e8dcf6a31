use std::time::Duration;

use futures::future::Either;
use yiffy_fun::{Cancelled, Delay, DelayEvent};

fn outcomes(events: &[DelayEvent]) -> Vec<Option<Result<(), Cancelled>>> {
    let mut delay = Delay::new();
    events.iter().map(|e| delay.observe(*e)).collect()
}

/// Drives a delay with a real timer and a real cancel channel, the way a
/// waiting task does, and returns its outcome and how long it took.
fn timed_wait(duration: Duration, cancel_at_once: bool) -> (Result<(), Cancelled>, Duration) {
    let runtime = tokio::runtime::Builder::new_current_thread().enable_time().build().unwrap();
    runtime.block_on(async move {
        let start = tokio::time::Instant::now();
        let (sender, receiver) = futures::channel::oneshot::channel::<()>();
        let mut handle = Some(sender);
        if cancel_at_once {
            handle.take().unwrap().send(()).unwrap();
        }
        let mut delay = Delay::new();
        let sleep = Box::pin(tokio::time::sleep(duration));
        let (first, rest) = match futures::future::select(sleep, receiver).await {
            Either::Left(_) => (delay.observe(DelayEvent::Elapsed), None),
            Either::Right((Ok(()), sleep)) => (delay.observe(DelayEvent::CancelRequested), Some(sleep)),
            Either::Right((Err(_), sleep)) => (delay.observe(DelayEvent::HandleDropped), Some(sleep)),
        };
        let outcome = match (first, rest) {
            (Some(outcome), _) => outcome,
            (None, Some(sleep)) => {
                sleep.await;
                delay.observe(DelayEvent::Elapsed).unwrap()
            }
            (None, None) => panic!("the delay neither resolved nor kept waiting"),
        };
        drop(handle);
        (outcome, start.elapsed())
    })
}

#[test]
fn cancel_right_away_resolves_cancelled() {
    let (outcome, _) = timed_wait(Duration::from_millis(50), true);
    assert_eq!(outcome, Err(Cancelled));
}

#[test]
fn uncanceled_delay_elapses_after_its_duration() {
    let (outcome, took) = timed_wait(Duration::from_millis(10), false);
    assert_eq!(outcome, Ok(()));
    assert!(took >= Duration::from_millis(10));
}

#[test]
fn cancel_before_elapse_resolves_once_as_cancelled() {
    assert_eq!(
        outcomes(&[DelayEvent::CancelRequested, DelayEvent::Elapsed]),
        vec![Some(Err(Cancelled)), None]
    );
}

#[test]
fn elapse_resolves_as_elapsed() {
    assert_eq!(outcomes(&[DelayEvent::Elapsed]), vec![Some(Ok(()))]);
}

#[test]
fn cancel_after_resolution_is_harmless() {
    let mut delay = Delay::new();
    assert_eq!(delay.observe(DelayEvent::Elapsed), Some(Ok(())));
    assert_eq!(delay.observe(DelayEvent::CancelRequested), None);
    assert_eq!(delay.outcome(), Some(Ok(())));
}

#[test]
fn dropped_handle_waits_for_the_duration() {
    assert_eq!(
        outcomes(&[DelayEvent::HandleDropped, DelayEvent::CancelRequested, DelayEvent::Elapsed]),
        vec![None, None, Some(Ok(()))]
    );
}

#[test]
fn pending_delay_has_no_outcome() {
    let mut delay = Delay::new();
    assert_eq!(delay.outcome(), None);
    assert_eq!(delay.observe(DelayEvent::HandleDropped), None);
    assert_eq!(delay.outcome(), None);
}

#[test]
fn cancelled_describes_itself() {
    assert_eq!(Cancelled.message(), "cancelled");
}
