//! The decisions of the blocking stream adapter.
//!
//! The adapter turns an asynchronous stream into a pull-based iterator for
//! code that has no scheduler of its own. A call to `next` polls the stream
//! and, each time the stream is not ready, blocks until it is woken, then
//! polls again. Polling and blocking are the caller's work; what the adapter
//! decides after each answer of the stream, and that it is fused, is here.
use vstd::prelude::*;

verus! {

/// What the underlying stream answered to one poll.
pub enum StreamPoll<I> {
    /// Not ready yet.
    Pending,
    /// The next item.
    Item(I),
    /// No more items, ever.
    Exhausted,
}

/// What the adapter does after one answer of the stream.
pub enum NextStep<I> {
    /// Block until woken, then poll again.
    Wait,
    /// Return this item from `next`.
    Yield(I),
    /// Return no item from `next`.
    Done,
}

/// A stream turned into a blocking iterator.
pub struct StreamTrunkWait<T> {
    stream: T,
    exhausted: bool,
}

impl<T> StreamTrunkWait<T> {
    /// Whether the stream has reported that it has no more items.
    pub closed spec fn exhausted(&self) -> bool {
        self.exhausted
    }

    /// The stream being drained.
    pub closed spec fn stream(&self) -> T {
        self.stream
    }

    /// The stream, to be polled by the caller.
    pub fn stream_mut(&mut self) -> (r: &mut T)
        ensures
            *r == old(self).stream(),
            final(self).stream() == *final(r),
            final(self).exhausted() == old(self).exhausted(),
    {
        &mut self.stream
    }

    /// The adapter over `stream`, not exhausted.
    pub fn new(stream: T) -> (r: Self)
        ensures
            r.stream() == stream,
            !r.exhausted(),
    {
        StreamTrunkWait { stream, exhausted: false }
    }

    /// Whether a call to `next` should poll the stream at all. Once the stream
    /// is exhausted it is never polled again, and `next` returns no item.
    pub fn should_poll(&self) -> (r: bool)
        ensures
            r == !self.exhausted(),
    {
        !self.exhausted
    }

    /// What to do after the stream answered `answer`.
    pub fn on_poll<I>(&mut self, answer: StreamPoll<I>) -> (r: NextStep<I>)
        requires
            !old(self).exhausted(),
        ensures
            final(self).stream() == old(self).stream(),
            final(self).exhausted() == (answer is Exhausted),
            r == next_step(answer),
    {
        match answer {
            StreamPoll::Pending => NextStep::Wait,
            StreamPoll::Item(item) => NextStep::Yield(item),
            StreamPoll::Exhausted => {
                self.exhausted = true;
                NextStep::Done
            },
        }
    }
}

/// The step taken on one answer of the stream.
pub open spec fn next_step<I>(answer: StreamPoll<I>) -> NextStep<I> {
    match answer {
        StreamPoll::Pending => NextStep::Wait,
        StreamPoll::Item(item) => NextStep::Yield(item),
        StreamPoll::Exhausted => NextStep::Done,
    }
}

/// How one call to `next` ends.
pub enum CallEnd<I> {
    /// Still blocked: every answer so far was `Pending`.
    Blocked,
    /// Returned, with an item or without.
    Returned(Option<I>),
}

/// One call to `next` on an adapter that is exhausted or not, when the
/// stream would give `answers` to successive polls: how the call ends, how
/// many polls it makes, and whether the adapter is exhausted afterwards.
pub open spec fn next_call<I>(exhausted: bool, answers: Seq<StreamPoll<I>>) -> (CallEnd<I>, nat, bool)
    decreases answers.len(),
{
    if exhausted {
        (CallEnd::Returned(None), 0, true)
    } else if answers.len() == 0 {
        (CallEnd::Blocked, 0, false)
    } else {
        match next_step(answers[0]) {
            NextStep::Wait => {
                let (end, polls, ex) = next_call(false, answers.drop_first());
                (end, polls + 1, ex)
            },
            NextStep::Yield(item) => (CallEnd::Returned(Some(item)), 1, false),
            NextStep::Done => (CallEnd::Returned(None), 1, true),
        }
    }
}

/// A call to `next` that returns no item leaves the adapter exhausted.
pub proof fn lemma_none_exhausts<I>(exhausted: bool, answers: Seq<StreamPoll<I>>)
    ensures
        next_call(exhausted, answers).0 == CallEnd::<I>::Returned(None) ==> next_call(
            exhausted,
            answers,
        ).2,
    decreases answers.len(),
{
    if !exhausted && answers.len() > 0 {
        lemma_none_exhausts(false, answers.drop_first());
    }
}

/// Once a call to `next` has returned no item, every later call returns no
/// item too, and polls the stream no more, whatever the stream would answer.
pub proof fn lemma_fused<I>(
    exhausted: bool,
    answers: Seq<StreamPoll<I>>,
    later: Seq<Seq<StreamPoll<I>>>,
)
    requires
        next_call(exhausted, answers).0 == CallEnd::<I>::Returned(None),
    ensures
        forall|k: int|
            0 <= k < later.len() ==> #[trigger] next_call(next_call(exhausted, answers).2, later[k])
                == (CallEnd::<I>::Returned(None), 0nat, true),
{
    lemma_none_exhausts(exhausted, answers);
}

} // verus!
