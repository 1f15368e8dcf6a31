use vstd::prelude::*;

verus! {

/// What a cancelable wait resolves to when its handle canceled it before the
/// delay elapsed.
#[derive(Debug, Clone, Copy, PartialEq, Eq, Structural)]
pub struct Cancelled;

impl Cancelled {
    /// The text that describes this outcome.
    pub fn message(&self) -> (r: &'static str)
        ensures
            r@ == "cancelled"@,
    {
        "cancelled"
    }
}

/// Something that the code driving a delay observed.
#[derive(Debug, Clone, Copy, PartialEq, Eq, Structural)]
pub enum DelayEvent {
    /// The delay's duration passed.
    Elapsed,
    /// The paired handle asked to cancel.
    CancelRequested,
    /// The paired handle went away without asking to cancel.
    HandleDropped,
}

/// Where a delay stands.
#[derive(Debug, Clone, Copy)]
pub enum DelayPhase {
    /// Waiting, and the handle can still cancel.
    Armed,
    /// Waiting, with no handle left: only the duration can end the wait.
    Detached,
    /// The wait has resolved, for good.
    Resolved(Result<(), Cancelled>),
}

/// One observation: the phase after it, and the outcome when the wait
/// resolves at this very event.
///
/// An armed delay resolves at the first elapse or cancel request, to that
/// outcome; a dropped handle leaves it waiting for the duration alone. A
/// resolved delay stays as it is, so a late cancel request is harmless.
pub open spec fn observe_spec(phase: DelayPhase, event: DelayEvent) -> (
    DelayPhase,
    Option<Result<(), Cancelled>>,
) {
    match phase {
        DelayPhase::Armed => match event {
            DelayEvent::Elapsed => (DelayPhase::Resolved(Ok(())), Some(Ok(()))),
            DelayEvent::CancelRequested => (
                DelayPhase::Resolved(Err(Cancelled)),
                Some(Err(Cancelled)),
            ),
            DelayEvent::HandleDropped => (DelayPhase::Detached, None),
        },
        DelayPhase::Detached => match event {
            DelayEvent::Elapsed => (DelayPhase::Resolved(Ok(())), Some(Ok(()))),
            _ => (DelayPhase::Detached, None),
        },
        DelayPhase::Resolved(_) => (phase, None),
    }
}

/// Observations one after the other, with what each one resolved.
pub open spec fn observe_all(phase: DelayPhase, events: Seq<DelayEvent>) -> (
    DelayPhase,
    Seq<Option<Result<(), Cancelled>>>,
)
    decreases events.len(),
{
    if events.len() == 0 {
        (phase, Seq::empty())
    } else {
        let first = observe_spec(phase, events[0]);
        let rest = observe_all(first.0, events.drop_first());
        (rest.0, seq![first.1] + rest.1)
    }
}

/// The decisions of one cancelable wait: it resolves to exactly one of
/// elapsed and cancelled, once.
#[derive(Debug)]
pub struct Delay {
    phase: DelayPhase,
}

impl View for Delay {
    type V = DelayPhase;

    closed spec fn view(&self) -> DelayPhase {
        self.phase
    }
}

impl Delay {
    /// A delay that has just started, with its handle live.
    pub fn new() -> (r: Self)
        ensures
            r@ == DelayPhase::Armed,
    {
        Delay { phase: DelayPhase::Armed }
    }

    /// Takes in one observation and returns the outcome if the wait resolves
    /// at it.
    pub fn observe(&mut self, event: DelayEvent) -> (r: Option<Result<(), Cancelled>>)
        ensures
            (final(self)@, r) == observe_spec(old(self)@, event),
    {
        match self.phase {
            DelayPhase::Armed => match event {
                DelayEvent::Elapsed => {
                    self.phase = DelayPhase::Resolved(Ok(()));
                    Some(Ok(()))
                },
                DelayEvent::CancelRequested => {
                    self.phase = DelayPhase::Resolved(Err(Cancelled));
                    Some(Err(Cancelled))
                },
                DelayEvent::HandleDropped => {
                    self.phase = DelayPhase::Detached;
                    None
                },
            },
            DelayPhase::Detached => match event {
                DelayEvent::Elapsed => {
                    self.phase = DelayPhase::Resolved(Ok(()));
                    Some(Ok(()))
                },
                _ => None,
            },
            DelayPhase::Resolved(_) => None,
        }
    }

    /// The outcome, once the wait has resolved.
    pub fn outcome(&self) -> (r: Option<Result<(), Cancelled>>)
        ensures
            r == match self@ {
                DelayPhase::Resolved(o) => Some(o),
                _ => None,
            },
    {
        match self.phase {
            DelayPhase::Resolved(o) => Some(o),
            _ => None,
        }
    }
}

/// A resolved delay ignores every later observation.
pub proof fn lemma_resolved_stays(o: Result<(), Cancelled>, events: Seq<DelayEvent>)
    ensures
        observe_all(DelayPhase::Resolved(o), events) == (
            DelayPhase::Resolved(o),
            Seq::new(events.len(), |_i: int| None::<Result<(), Cancelled>>),
        ),
    decreases events.len(),
{
    if events.len() > 0 {
        lemma_resolved_stays(o, events.drop_first());
        assert(Seq::new(events.len(), |_i: int| None::<Result<(), Cancelled>>) =~= seq![None]
            + Seq::new((events.len() - 1) as nat, |_i: int| None::<Result<(), Cancelled>>));
    } else {
        assert(Seq::new(events.len(), |_i: int| None::<Result<(), Cancelled>>) =~= Seq::empty());
    }
}

/// No observation before index `i` is an elapse.
pub open spec fn none_elapsed_before(events: Seq<DelayEvent>, i: int) -> bool {
    forall|j: int| 0 <= j < i ==> events[j] != DelayEvent::Elapsed
}

/// Past a first observation that is no elapse, "no elapse before" reads the
/// same on the rest of the observations, one index lower.
proof fn lemma_none_elapsed_shift(events: Seq<DelayEvent>, i: int)
    requires
        events.len() > 0,
        events[0] != DelayEvent::Elapsed,
        0 < i <= events.len(),
    ensures
        none_elapsed_before(events, i) == none_elapsed_before(events.drop_first(), i - 1),
{
    let tail = events.drop_first();
    if none_elapsed_before(tail, i - 1) {
        assert forall|j: int| 0 <= j < i implies events[j] != DelayEvent::Elapsed by {
            if j > 0 {
                assert(events[j] == tail[j - 1]);
            }
        }
    }
    if none_elapsed_before(events, i) {
        assert forall|j: int| 0 <= j < i - 1 implies tail[j] != DelayEvent::Elapsed by {
            assert(events[j + 1] == tail[j]);
        }
    }
}

/// A delay with no handle left resolves as elapsed at the first elapse, and
/// at no other observation.
pub proof fn lemma_detached_waits_for_elapse(events: Seq<DelayEvent>)
    ensures
        ({
            let outs = observe_all(DelayPhase::Detached, events).1;
            &&& outs.len() == events.len()
            &&& forall|i: int|
                0 <= i < outs.len() ==> (#[trigger] outs[i] == Some(Ok::<(), Cancelled>(()))
                    <==> events[i] == DelayEvent::Elapsed && none_elapsed_before(events, i))
            &&& forall|i: int| 0 <= i < outs.len() ==> #[trigger] outs[i] is None || outs[i] == Some(Ok::<(), Cancelled>(()))
        }),
    decreases events.len(),
{
    if events.len() > 0 {
        let tail = events.drop_first();
        lemma_detached_waits_for_elapse(tail);
        let first = observe_spec(DelayPhase::Detached, events[0]);
        let outs = observe_all(DelayPhase::Detached, events).1;
        if events[0] == DelayEvent::Elapsed {
            lemma_resolved_stays(Ok(()), tail);
            assert forall|i: int| 0 < i < outs.len() implies outs[i] == None::<Result<(), Cancelled>> by {
                assert(outs[i] == observe_all(first.0, tail).1[i - 1]);
            }
            assert forall|i: int| 0 < i < outs.len() implies !none_elapsed_before(events, i) by {
                assert(events[0] == DelayEvent::Elapsed);
            }
        } else {
            assert forall|i: int| 0 < i < outs.len() implies none_elapsed_before(events, i) == none_elapsed_before(tail, i - 1) by {
                lemma_none_elapsed_shift(events, i);
            }
            assert forall|i: int| 0 < i < outs.len() implies outs[i] == observe_all(DelayPhase::Detached, tail).1[i - 1] by {}
        }
    }
}

/// A delay resolves at most once, to exactly one of two outcomes: cancelled,
/// at the first observation, when that is a cancel request; otherwise
/// elapsed, at the first elapse. A handle that goes away without canceling
/// leaves the wait to run its full duration.
pub proof fn lemma_delay_resolves_once(events: Seq<DelayEvent>)
    ensures
        ({
            let outs = observe_all(DelayPhase::Armed, events).1;
            &&& outs.len() == events.len()
            &&& forall|i: int, j: int|
                0 <= i < j < outs.len() && (#[trigger] outs[i]) is Some ==> (#[trigger] outs[j]) is None
            &&& forall|i: int|
                0 <= i < outs.len() ==> (#[trigger] outs[i] == Some(Err::<(), Cancelled>(Cancelled))
                    <==> i == 0 && events[0] == DelayEvent::CancelRequested)
            &&& forall|i: int|
                0 <= i < outs.len() ==> (#[trigger] outs[i] == Some(Ok::<(), Cancelled>(()))
                    <==> events[0] != DelayEvent::CancelRequested && events[i] == DelayEvent::Elapsed
                    && none_elapsed_before(events, i))
        }),
{
    if events.len() > 0 {
        let tail = events.drop_first();
        let first = observe_spec(DelayPhase::Armed, events[0]);
        let outs = observe_all(DelayPhase::Armed, events).1;
        assert forall|i: int| 0 < i < outs.len() implies outs[i] == observe_all(first.0, tail).1[i - 1] by {}
        match events[0] {
            DelayEvent::Elapsed => {
                lemma_resolved_stays(Ok(()), tail);
                assert forall|i: int| 0 < i < outs.len() implies !none_elapsed_before(events, i) by {
                    assert(events[0] == DelayEvent::Elapsed);
                }
            },
            DelayEvent::CancelRequested => {
                lemma_resolved_stays(Err(Cancelled), tail);
            },
            DelayEvent::HandleDropped => {
                lemma_detached_waits_for_elapse(tail);
                assert forall|i: int| 0 < i < outs.len() implies none_elapsed_before(events, i) == none_elapsed_before(tail, i - 1) by {
                    lemma_none_elapsed_shift(events, i);
                }
                assert forall|i: int, j: int|
                    0 <= i < j < outs.len() && (#[trigger] outs[i]) is Some implies (#[trigger] outs[j]) is None by {
                    assert(events[i] == DelayEvent::Elapsed);
                    assert(!none_elapsed_before(events, j));
                }
            },
        }
    }
}

} // verus!
