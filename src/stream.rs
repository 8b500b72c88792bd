//! The step-event stream of one generation call: per batch element, how many
//! tokens were delivered, in what order, and whether the element is done,
//! either by reaching its last step or by the caller's stop signal.
use vstd::prelude::*;

verus! {

/// One decoding step for one batch element. The log-probability that the
/// engine may attach travels beside it.
#[derive(Clone, Copy, Debug, PartialEq, Eq, Structural)]
pub struct StepEvent {
    pub step: usize,
    pub batch_id: usize,
    pub token_id: usize,
    /// The last event of this element.
    pub is_last: bool,
}

/// What the stream knows of one batch element.
#[derive(Clone, Copy, Debug, PartialEq, Eq, Structural)]
pub struct ElementProgress {
    /// Tokens delivered so far.
    pub tokens: usize,
    /// Step of the latest delivered event.
    pub last_step: Option<usize>,
    /// No event may follow.
    pub finished: bool,
    /// Finished because the caller asked to stop.
    pub cancelled: bool,
}

/// Why an event was refused; a refused event changes nothing.
#[derive(Clone, Copy, Debug, PartialEq, Eq, Structural)]
pub enum StreamError {
    /// The batch has no element with this id.
    UnknownElement,
    /// The element has already finished.
    AfterLast,
    /// The step is earlier than one already delivered for the element.
    OutOfOrder,
    /// The token count would not fit.
    TooManyTokens,
}

pub open spec fn fresh_progress() -> ElementProgress {
    ElementProgress { tokens: 0, last_step: None, finished: false, cancelled: false }
}

/// Delivering `e` to an element with progress `p`, where the caller's
/// answer to it was `stop`.
pub open spec fn observe_element(p: ElementProgress, e: StepEvent, stop: bool) -> Result<
    ElementProgress,
    StreamError,
> {
    if p.finished {
        Err(StreamError::AfterLast)
    } else if p.last_step matches Some(s) && e.step < s {
        Err(StreamError::OutOfOrder)
    } else if p.tokens == usize::MAX {
        Err(StreamError::TooManyTokens)
    } else {
        Ok(
            ElementProgress {
                tokens: (p.tokens + 1) as usize,
                last_step: Some(e.step),
                finished: e.is_last || stop,
                cancelled: stop && !e.is_last,
            },
        )
    }
}

/// The outcome of delivering `e` to a stream in state `s`.
pub open spec fn observe_outcome(s: Seq<ElementProgress>, e: StepEvent, stop: bool) -> Result<
    ElementProgress,
    StreamError,
> {
    if e.batch_id >= s.len() {
        Err(StreamError::UnknownElement)
    } else {
        observe_element(s[e.batch_id as int], e, stop)
    }
}

/// The state after delivering `e`; a refused event leaves it unchanged.
pub open spec fn observe_next(s: Seq<ElementProgress>, e: StepEvent, stop: bool) -> Seq<
    ElementProgress,
> {
    match observe_outcome(s, e, stop) {
        Ok(p) => s.update(e.batch_id as int, p),
        Err(_) => s,
    }
}

/// The state after delivering each event of `trace` with its answer.
pub open spec fn observe_all(s: Seq<ElementProgress>, trace: Seq<(StepEvent, bool)>) -> Seq<
    ElementProgress,
>
    decreases trace.len(),
{
    if trace.len() == 0 {
        s
    } else {
        observe_next(observe_all(s, trace.drop_last()), trace.last().0, trace.last().1)
    }
}

pub open spec fn fresh_stream(batch_size: nat) -> Seq<ElementProgress> {
    Seq::new(batch_size, |i: int| fresh_progress())
}

/// Some event of `trace` is for element `b`.
pub open spec fn reaches(trace: Seq<(StepEvent, bool)>, b: int) -> bool {
    exists|i: int| 0 <= i < trace.len() && #[trigger] trace[i].0.batch_id == b
}

/// Progress of every element of a batch through one generation call.
pub struct StepStream {
    elements: Vec<ElementProgress>,
}

impl View for StepStream {
    type V = Seq<ElementProgress>;

    closed spec fn view(&self) -> Seq<ElementProgress> {
        self.elements@
    }
}

impl StepStream {
    /// A stream for `batch_size` elements, none of which has a token yet.
    pub fn new(batch_size: usize) -> (r: StepStream)
        ensures
            r@ == fresh_stream(batch_size as nat),
    {
        let mut elements: Vec<ElementProgress> = Vec::new();
        let mut i: usize = 0;
        while i < batch_size
            invariant
                i <= batch_size,
                elements@ == fresh_stream(i as nat),
            decreases batch_size - i,
        {
            elements.push(ElementProgress { tokens: 0, last_step: None, finished: false, cancelled: false });
            i = i + 1;
            proof {
                assert(elements@ =~= fresh_stream(i as nat));
            }
        }
        StepStream { elements }
    }

    pub fn len(&self) -> (r: usize)
        ensures
            r == self@.len(),
    {
        self.elements.len()
    }

    /// Progress of element `batch_id`.
    pub fn progress(&self, batch_id: usize) -> (r: ElementProgress)
        requires
            batch_id < self@.len(),
        ensures
            r == self@[batch_id as int],
    {
        self.elements[batch_id]
    }

    /// Every element has finished.
    pub fn all_finished(&self) -> (r: bool)
        ensures
            r == (forall|b: int| 0 <= b < self@.len() ==> #[trigger] self@[b].finished),
    {
        let mut i: usize = 0;
        while i < self.elements.len()
            invariant
                i <= self@.len(),
                forall|b: int| 0 <= b < i ==> #[trigger] self@[b].finished,
            decreases self@.len() - i,
        {
            if !self.elements[i].finished {
                return false;
            }
            i = i + 1;
        }
        true
    }

    /// Delivers `event`, to which the caller answered `stop`: the element
    /// gains a token and finishes on its last step or when asked to stop.
    /// Returns whether the element has finished.
    pub fn observe(&mut self, event: StepEvent, stop: bool) -> (r: Result<bool, StreamError>)
        ensures
            final(self)@ == observe_next(old(self)@, event, stop),
            observe_outcome(old(self)@, event, stop) matches Ok(p) ==> r == Ok::<bool, StreamError>(
                p.finished,
            ),
            observe_outcome(old(self)@, event, stop) matches Err(e) ==> r == Err::<bool, StreamError>(
                e,
            ),
    {
        let b = event.batch_id;
        if b >= self.elements.len() {
            return Err(StreamError::UnknownElement);
        }
        let p = self.elements[b];
        if p.finished {
            return Err(StreamError::AfterLast);
        }
        match p.last_step {
            Some(s) => {
                if event.step < s {
                    return Err(StreamError::OutOfOrder);
                }
            },
            None => {},
        }
        if p.tokens == usize::MAX {
            return Err(StreamError::TooManyTokens);
        }
        let finished = event.is_last || stop;
        let next = ElementProgress {
            tokens: p.tokens + 1,
            last_step: Some(event.step),
            finished,
            cancelled: stop && !event.is_last,
        };
        self.elements.set(b, next);
        Ok(finished)
    }
}

/// A caller that asks to stop at every event gets exactly one token for
/// each element that the engine reached, and none for the others: the
/// first event finishes the element and every later one is refused.
pub proof fn lemma_stop_on_first_event(batch_size: nat, trace: Seq<(StepEvent, bool)>)
    requires
        forall|i: int| 0 <= i < trace.len() ==> #[trigger] trace[i].1,
    ensures
        observe_all(fresh_stream(batch_size), trace).len() == batch_size,
        forall|b: int|
            0 <= b < batch_size ==> #[trigger] observe_all(fresh_stream(batch_size), trace)[b].tokens
                == (if reaches(trace, b) {
                1usize
            } else {
                0usize
            }),
{
    lemma_always_stop(batch_size, trace);
}

/// Under a caller that always asks to stop, an element has finished, with
/// one token, exactly when some event reached it.
proof fn lemma_always_stop(batch_size: nat, trace: Seq<(StepEvent, bool)>)
    requires
        forall|i: int| 0 <= i < trace.len() ==> #[trigger] trace[i].1,
    ensures
        observe_all(fresh_stream(batch_size), trace).len() == batch_size,
        forall|b: int|
            0 <= b < batch_size ==> {
                let p = #[trigger] observe_all(fresh_stream(batch_size), trace)[b];
                &&& reaches(trace, b) ==> p.finished && p.tokens == 1
                &&& !reaches(trace, b) ==> p == fresh_progress()
            },
    decreases trace.len(),
{
    let s0 = fresh_stream(batch_size);
    if trace.len() > 0 {
        let rest = trace.drop_last();
        assert forall|i: int| 0 <= i < rest.len() implies #[trigger] rest[i].1 by {
            assert(rest[i] == trace[i]);
        }
        lemma_always_stop(batch_size, rest);
        let s = observe_all(s0, rest);
        let e = trace.last().0;
        assert(trace[trace.len() - 1].1);
        assert(trace[trace.len() - 1].0.batch_id == e.batch_id);
        assert(observe_all(s0, trace) == observe_next(s, e, true));
        assert forall|b: int| 0 <= b < batch_size implies {
            let p = #[trigger] observe_all(s0, trace)[b];
            &&& reaches(trace, b) ==> p.finished && p.tokens == 1
            &&& !reaches(trace, b) ==> p == fresh_progress()
        } by {
            if reaches(rest, b) {
                let i = choose|i: int| 0 <= i < rest.len() && #[trigger] rest[i].0.batch_id == b;
                assert(trace[i] == rest[i]);
            }
            if b != e.batch_id {
                if reaches(trace, b) {
                    let i = choose|i: int| 0 <= i < trace.len() && #[trigger] trace[i].0.batch_id == b;
                    if i < rest.len() {
                        assert(rest[i] == trace[i]);
                    }
                }
                assert(observe_all(s0, trace)[b] == s[b]);
            } else if reaches(rest, b) {
                assert(observe_outcome(s, e, true) is Err);
            } else {
                assert(s[b] == fresh_progress());
                assert(observe_all(s0, trace)[b] == observe_element(s[b], e, true)->Ok_0);
            }
        }
    }
}

} // verus!
