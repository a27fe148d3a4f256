//! The completion tracker: a single-use counting barrier for concurrent
//! dispatch.
//!
//! The barrier is sized to the total number of scheduled requests, T.
//! Every concurrent execution unit emits exactly one completion signal
//! when it finishes — whether its request succeeded or failed — and the
//! dispatcher consumes the signals one by one until exactly T have been
//! received.  A completion channel that closes before the count is reached
//! means a unit died without signalling: that is a lost completion, fatal
//! and distinct from an ordinary request failure.

use vstd::prelude::*;
use crate::errors::RunError;

verus! {

/// What the completion channel yielded to the waiting dispatcher: one
/// completion signal, or closure of the channel.
#[derive(Clone, Copy, PartialEq, Eq, Structural, Debug)]
pub enum BarrierEvent {
    /// One execution unit finished (successfully or not) and signalled.
    Signal,
    /// The channel closed: no further signal can ever arrive.
    Closed,
}

/// Where the wait stands after consuming one event.
#[derive(Clone, Copy, PartialEq, Eq, Structural, Debug)]
pub enum WaitStep {
    /// Fewer signals than expected so far; keep waiting.
    Pending,
    /// Exactly the expected number of signals has been received; the
    /// dispatcher may return.
    Complete,
    /// The channel closed short of the expected count: a completion was
    /// lost.
    Lost,
}

/// The counting barrier.  `received` never exceeds `expected`.
pub struct CompletionTracker {
    expected: usize,
    received: usize,
}

impl CompletionTracker {
    /// The total number of signals this barrier was sized for.
    pub closed spec fn spec_expected(self) -> nat {
        self.expected as nat
    }

    /// How many signals have been received so far.
    pub closed spec fn spec_received(self) -> nat {
        self.received as nat
    }

    /// The barrier invariant: no more signals received than expected.
    pub open spec fn wf(self) -> bool {
        self.spec_received() <= self.spec_expected()
    }

    /// All expected signals are in: the barrier releases the waiter.
    pub open spec fn complete(self) -> bool {
        self.spec_received() == self.spec_expected()
    }

    /// A fresh barrier sized to `expected` signals, none received yet.
    pub fn new(expected: usize) -> (t: CompletionTracker)
        ensures
            t.spec_expected() == expected,
            t.spec_received() == 0,
            t.wf(),
    {
        CompletionTracker { expected, received: 0 }
    }

    /// Whether the expected signal count has been reached.
    pub fn is_complete(&self) -> (r: bool)
        ensures
            r == self.complete(),
    {
        self.received == self.expected
    }

    /// Consume one event from the completion channel.
    ///
    /// A signal raises the received count by exactly one — no signal is
    /// ever dropped, whatever outcome its execution unit had — and the
    /// wait completes exactly when the count reaches the expected total.
    /// Channel closure before that point is a lost completion; it leaves
    /// the count unchanged.
    pub fn consume(&mut self, ev: BarrierEvent) -> (r: WaitStep)
        requires
            old(self).wf(),
            !old(self).complete(),
        ensures
            final(self).wf(),
            final(self).spec_expected() == old(self).spec_expected(),
            ev is Signal ==> final(self).spec_received() == old(self).spec_received() + 1,
            ev is Closed ==> *final(self) == *old(self),
            r is Complete <==> ev is Signal && final(self).complete(),
            r is Lost <==> ev is Closed,
            r is Pending <==> ev is Signal && !final(self).complete(),
    {
        match ev {
            BarrierEvent::Signal => {
                self.received = self.received + 1;
                if self.received == self.expected {
                    WaitStep::Complete
                } else {
                    WaitStep::Pending
                }
            },
            BarrierEvent::Closed => WaitStep::Lost,
        }
    }

    /// The error a closed channel amounts to, for the caller that stops
    /// waiting: a lost completion exactly when the count fell short.
    pub fn closure_error(&self) -> (r: Result<(), RunError>)
        ensures
            self.complete() ==> r is Ok,
            !self.complete() ==> (r matches Err(e) && e == RunError::LostCompletion),
    {
        if self.received == self.expected {
            Ok(())
        } else {
            Err(RunError::LostCompletion)
        }
    }
}

/// The result of the dispatcher's whole wait: starting with `received`
/// signals already in, consume the events in order until the expected
/// count is reached (`Complete`), the channel closes short (`Lost`), or
/// the events run out (`Pending`).
pub open spec fn spec_wait_outcome(expected: nat, received: nat, events: Seq<BarrierEvent>) -> WaitStep
    decreases events.len(),
{
    if received >= expected {
        WaitStep::Complete
    } else if events.len() == 0 {
        WaitStep::Pending
    } else if events[0] is Closed {
        WaitStep::Lost
    } else {
        spec_wait_outcome(expected, received + 1, events.drop_first())
    }
}

/// The dispatcher returns if and only if it has received exactly the
/// expected number of completion signals — however the signals arrive and
/// whatever the outcomes of the requests behind them: a stream of `k`
/// signals releases a barrier expecting `T` exactly when `k ≥ T`, with
/// only the first `T` consumed.
pub proof fn lemma_barrier_releases_iff(expected: nat, received: nat, events: Seq<BarrierEvent>)
    requires
        forall|i: int| 0 <= i < events.len() ==> events[i] is Signal,
    ensures
        spec_wait_outcome(expected, received, events) is Complete <==> received + events.len()
            >= expected,
        !(spec_wait_outcome(expected, received, events) is Lost),
    decreases events.len(),
{
    if received >= expected {
    } else if events.len() == 0 {
    } else {
        assert(events[0] is Signal);
        assert(forall|i: int|
            0 <= i < events.drop_first().len() ==> #[trigger] events.drop_first()[i]
                == events[i + 1]);
        lemma_barrier_releases_iff(expected, received + 1, events.drop_first());
    }
}

/// A channel that closes after fewer signals than expected never releases
/// the barrier: the wait ends as a lost completion, loudly, not as a
/// silent hang and not as a normal return.
pub proof fn lemma_barrier_lost(expected: nat, received: nat, events: Seq<BarrierEvent>, c: int)
    requires
        0 <= c < events.len(),
        events[c] is Closed,
        forall|i: int| 0 <= i < c ==> events[i] is Signal,
        received + c < expected,
    ensures
        spec_wait_outcome(expected, received, events) is Lost,
    decreases events.len(),
{
    if received >= expected {
    } else if events[0] is Closed {
    } else {
        assert(c != 0);
        assert(forall|i: int|
            0 <= i < events.drop_first().len() ==> #[trigger] events.drop_first()[i]
                == events[i + 1]);
        lemma_barrier_lost(expected, received + 1, events.drop_first(), c - 1);
    }
}

} // verus!
