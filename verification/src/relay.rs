//! The streaming chat relay as an event-driven state machine.
//!
//! The relay owns the decisions of the chat command: which outside step to
//! take next (open handled by the driver, poll the daemon stream, push a
//! fragment to the UI event channel) and how each observed outcome changes
//! its state. The driver performs the I/O: it opens the stream, feeds every
//! outcome back in as a [`RelayEvent`], and carries out the returned
//! [`RelayAction`], so fragments flow to the UI one by one, in arrival
//! order, with no buffering and no retry.

use vstd::prelude::*;

use crate::message::ChatError;
use crate::message::ChatResponse;

verus! {

/// One outcome observed by the driver and handed to the relay.
#[derive(Debug)]
pub enum RelayEvent {
    /// The streamed request against the daemon was opened.
    Opened,
    /// The stream could not be opened; the daemon's describing text.
    OpenFailed(String),
    /// The stream produced its next content increment.
    Fragment(String),
    /// The stream ended: the daemon signalled completion.
    StreamEnd,
    /// The stream failed mid-relay; the describing text.
    StreamFailed(String),
    /// The event sink accepted the fragment last handed to it.
    Accepted,
    /// The event sink refused the fragment last handed to it.
    SinkFailed(String),
}

/// What the driver must do next, as decided by the relay.
#[derive(Debug)]
pub enum RelayAction {
    /// Await the next element of the daemon's response stream.
    AwaitFragment,
    /// Push this fragment to the UI event sink, then report the outcome.
    Deliver(ChatResponse),
    /// The stream is drained without error: the chat call succeeds.
    Succeed,
    /// The relay is aborted: the chat call returns this error.
    Fail(ChatError),
}

/// The relay's abstract phase.
pub ghost enum RelayPhase {
    /// Waiting for the outcome of opening the stream.
    Opening,
    /// Waiting for the next element of the daemon stream.
    Awaiting,
    /// A fragment with this content is at the sink, not yet acknowledged.
    Delivering(Seq<char>),
    /// The stream was drained without error.
    Done,
    /// Opening the stream failed with this describing text.
    FailedOpen(Seq<char>),
    /// The stream failed mid-relay with this describing text.
    FailedStream(Seq<char>),
    /// The event sink refused a fragment with this describing text.
    FailedSink(Seq<char>),
}

/// The relay's abstract state: its phase, the fragments the daemon has
/// produced so far, and the fragments the sink has accepted so far, each
/// in order.
pub ghost struct RelayState {
    pub phase: RelayPhase,
    pub produced: Seq<Seq<char>>,
    pub delivered: Seq<Seq<char>>,
}

/// The state a relay starts in: nothing produced, nothing delivered.
pub open spec fn init() -> RelayState {
    RelayState { phase: RelayPhase::Opening, produced: Seq::empty(), delivered: Seq::empty() }
}

/// Which events a state can take: exactly the outcomes the driver can
/// observe while the relay is in that phase. Terminal phases take none.
pub open spec fn accepts(s: RelayState, e: RelayEvent) -> bool {
    match s.phase {
        RelayPhase::Opening => e is Opened || e is OpenFailed,
        RelayPhase::Awaiting => e is Fragment || e is StreamEnd || e is StreamFailed,
        RelayPhase::Delivering(_) => e is Accepted || e is SinkFailed,
        _ => false,
    }
}

/// How one event changes the abstract state. On an event the state does
/// not accept, the state is unchanged.
pub open spec fn spec_step(s: RelayState, e: RelayEvent) -> RelayState {
    if !accepts(s, e) {
        s
    } else {
        match e {
            RelayEvent::Opened => RelayState { phase: RelayPhase::Awaiting, ..s },
            RelayEvent::OpenFailed(d) => RelayState { phase: RelayPhase::FailedOpen(d@), ..s },
            RelayEvent::Fragment(c) => RelayState {
                phase: RelayPhase::Delivering(c@),
                produced: s.produced.push(c@),
                ..s
            },
            RelayEvent::StreamEnd => RelayState { phase: RelayPhase::Done, ..s },
            RelayEvent::StreamFailed(d) => RelayState { phase: RelayPhase::FailedStream(d@), ..s },
            RelayEvent::Accepted => match s.phase {
                RelayPhase::Delivering(c) => RelayState {
                    phase: RelayPhase::Awaiting,
                    delivered: s.delivered.push(c),
                    ..s
                },
                _ => s,
            },
            RelayEvent::SinkFailed(d) => RelayState { phase: RelayPhase::FailedSink(d@), ..s },
        }
    }
}

/// What always holds of a reachable relay state: the sink has accepted
/// exactly the produced fragments, except for the one still pending while
/// a delivery is in flight (which is lost if the sink fails on it).
pub open spec fn inv(s: RelayState) -> bool {
    match s.phase {
        RelayPhase::Opening => s.produced == Seq::<Seq<char>>::empty() && s.delivered == Seq::<
            Seq<char>,
        >::empty(),
        RelayPhase::FailedOpen(_) => s.produced == Seq::<Seq<char>>::empty() && s.delivered
            == Seq::<Seq<char>>::empty(),
        RelayPhase::Awaiting => s.delivered == s.produced,
        RelayPhase::Done => s.delivered == s.produced,
        RelayPhase::FailedStream(_) => s.delivered == s.produced,
        RelayPhase::Delivering(c) => s.produced == s.delivered.push(c),
        RelayPhase::FailedSink(_) => s.produced.len() > 0 && s.delivered == s.produced.drop_last(),
    }
}

/// The abstract state after a whole sequence of events, first to last.
pub open spec fn run(s: RelayState, t: Seq<RelayEvent>) -> RelayState
    decreases t.len(),
{
    if t.len() == 0 {
        s
    } else {
        run(spec_step(s, t[0]), t.drop_first())
    }
}

/// Whether every event of the sequence is accepted by the state it meets:
/// exactly the sequences a driver of [`Relay::step`] can observe from `s`.
pub open spec fn valid_from(s: RelayState, t: Seq<RelayEvent>) -> bool
    decreases t.len(),
{
    t.len() == 0 || (accepts(s, t[0]) && valid_from(spec_step(s, t[0]), t.drop_first()))
}

/// The content increments the daemon produced in the event sequence, in
/// order.
pub open spec fn fragments_of(t: Seq<RelayEvent>) -> Seq<Seq<char>>
    decreases t.len(),
{
    if t.len() == 0 {
        Seq::empty()
    } else {
        match t[0] {
            RelayEvent::Fragment(c) => seq![c@] + fragments_of(t.drop_first()),
            _ => fragments_of(t.drop_first()),
        }
    }
}

/// Every run from a state that satisfies the relay invariant stays in it,
/// and the fragments it records as produced are exactly the fragments of
/// the event sequence, appended in order to those already produced.
pub proof fn lemma_run_invariant(s: RelayState, t: Seq<RelayEvent>)
    requires
        inv(s),
        valid_from(s, t),
    ensures
        inv(run(s, t)),
        run(s, t).produced == s.produced + fragments_of(t),
    decreases t.len(),
{
    if t.len() == 0 {
        assert(run(s, t).produced =~= s.produced + fragments_of(t));
    } else {
        let s1 = spec_step(s, t[0]);
        assert(inv(s1)) by {
            if s.phase is Delivering && t[0] is Accepted {
                assert(s1.delivered =~= s1.produced);
            }
            if s.phase is Delivering && t[0] is SinkFailed {
                assert(s1.delivered =~= s1.produced.drop_last());
            }
        }
        lemma_run_invariant(s1, t.drop_first());
        assert(run(s, t).produced =~= s.produced + fragments_of(t)) by {
            if t[0] is Fragment {
                assert(s1.produced + fragments_of(t.drop_first()) =~= s.produced + fragments_of(
                    t,
                ));
            }
        }
    }
}

/// A relay that ran to success delivered to the sink exactly the fragments
/// the daemon produced, in order and content, none duplicated or dropped.
pub proof fn lemma_success_delivers_all(t: Seq<RelayEvent>)
    requires
        valid_from(init(), t),
        run(init(), t).phase is Done,
    ensures
        run(init(), t).delivered == fragments_of(t),
{
    lemma_run_invariant(init(), t);
    assert(run(init(), t).produced =~= fragments_of(t));
}

/// A relay aborted by a mid-stream failure after the daemon produced N
/// fragments delivered exactly those N fragments, in order, before the
/// error surfaced.
pub proof fn lemma_stream_failure_delivers_prefix(t: Seq<RelayEvent>)
    requires
        valid_from(init(), t),
        run(init(), t).phase is FailedStream,
    ensures
        run(init(), t).delivered == fragments_of(t),
{
    lemma_run_invariant(init(), t);
    assert(run(init(), t).produced =~= fragments_of(t));
}

/// A relay aborted because the sink refused a fragment delivered every
/// produced fragment but that last, pending one.
pub proof fn lemma_sink_failure_drops_only_pending(t: Seq<RelayEvent>)
    requires
        valid_from(init(), t),
        run(init(), t).phase is FailedSink,
    ensures
        run(init(), t).delivered == fragments_of(t).drop_last(),
        run(init(), t).delivered.len() + 1 == fragments_of(t).len(),
{
    lemma_run_invariant(init(), t);
    assert(run(init(), t).produced =~= fragments_of(t));
}

/// A relay whose stream never opened delivered nothing to the sink.
pub proof fn lemma_open_failure_delivers_nothing(t: Seq<RelayEvent>)
    requires
        valid_from(init(), t),
        run(init(), t).phase is FailedOpen,
    ensures
        run(init(), t).delivered.len() == 0,
        fragments_of(t).len() == 0,
{
    lemma_run_invariant(init(), t);
    assert(run(init(), t).produced =~= fragments_of(t));
}

enum Phase {
    Opening,
    Awaiting,
    Delivering(Ghost<Seq<char>>),
    Done,
    FailedOpen(Ghost<Seq<char>>),
    FailedStream(Ghost<Seq<char>>),
    FailedSink(Ghost<Seq<char>>),
}

/// The relay itself. The driver creates one per chat call, opens the
/// stream, and then feeds it one event at a time, carrying out each
/// returned action, until the action is `Succeed` or `Fail`.
pub struct Relay {
    phase: Phase,
    produced: Ghost<Seq<Seq<char>>>,
    delivered: Ghost<Seq<Seq<char>>>,
}

impl Relay {
    /// The abstract state this relay is in.
    pub closed spec fn abs(self) -> RelayState {
        RelayState {
            phase: match self.phase {
                Phase::Opening => RelayPhase::Opening,
                Phase::Awaiting => RelayPhase::Awaiting,
                Phase::Delivering(c) => RelayPhase::Delivering(c@),
                Phase::Done => RelayPhase::Done,
                Phase::FailedOpen(d) => RelayPhase::FailedOpen(d@),
                Phase::FailedStream(d) => RelayPhase::FailedStream(d@),
                Phase::FailedSink(d) => RelayPhase::FailedSink(d@),
            },
            produced: self.produced@,
            delivered: self.delivered@,
        }
    }

    /// A fresh relay, waiting for the outcome of opening the stream.
    pub fn new() -> (r: Relay)
        ensures
            r.abs() == init(),
    {
        Relay {
            phase: Phase::Opening,
            produced: Ghost(Seq::empty()),
            delivered: Ghost(Seq::empty()),
        }
    }

    /// Whether the relay, in its current phase, takes the given event:
    /// the runtime test of what [`Relay::step`] demands of its driver.
    pub fn expects(&self, event: &RelayEvent) -> (r: bool)
        ensures
            r == accepts(self.abs(), *event),
    {
        match self.phase {
            Phase::Opening => match event {
                RelayEvent::Opened => true,
                RelayEvent::OpenFailed(_) => true,
                _ => false,
            },
            Phase::Awaiting => match event {
                RelayEvent::Fragment(_) => true,
                RelayEvent::StreamEnd => true,
                RelayEvent::StreamFailed(_) => true,
                _ => false,
            },
            Phase::Delivering(_) => match event {
                RelayEvent::Accepted => true,
                RelayEvent::SinkFailed(_) => true,
                _ => false,
            },
            _ => false,
        }
    }

    /// Take one observed outcome and decide the next action. The state
    /// moves exactly as [`spec_step`] says, and the action is determined
    /// by the event: a produced fragment is delivered at once and
    /// unchanged, the end of the stream is success, and every failure
    /// aborts the relay with the matching error.
    pub fn step(&mut self, event: RelayEvent) -> (action: RelayAction)
        requires
            accepts(old(self).abs(), event),
        ensures
            final(self).abs() == spec_step(old(self).abs(), event),
            match event {
                RelayEvent::Opened => action is AwaitFragment,
                RelayEvent::OpenFailed(d) => action == RelayAction::Fail(
                    ChatError::StreamStart(d),
                ),
                RelayEvent::Fragment(c) => action == RelayAction::Deliver(
                    (ChatResponse { message: c }),
                ),
                RelayEvent::StreamEnd => action is Succeed,
                RelayEvent::StreamFailed(d) => action == RelayAction::Fail(ChatError::Stream(d)),
                RelayEvent::Accepted => action is AwaitFragment,
                RelayEvent::SinkFailed(d) => action == RelayAction::Fail(ChatError::Sink(d)),
            },
    {
        match event {
            RelayEvent::Opened => {
                self.phase = Phase::Awaiting;
                RelayAction::AwaitFragment
            },
            RelayEvent::OpenFailed(d) => {
                self.phase = Phase::FailedOpen(Ghost(d@));
                RelayAction::Fail(ChatError::StreamStart(d))
            },
            RelayEvent::Fragment(c) => {
                self.phase = Phase::Delivering(Ghost(c@));
                self.produced = Ghost(self.produced@.push(c@));
                RelayAction::Deliver(ChatResponse { message: c })
            },
            RelayEvent::StreamEnd => {
                self.phase = Phase::Done;
                RelayAction::Succeed
            },
            RelayEvent::StreamFailed(d) => {
                self.phase = Phase::FailedStream(Ghost(d@));
                RelayAction::Fail(ChatError::Stream(d))
            },
            RelayEvent::Accepted => {
                let ghost pending: Seq<char> = match self.phase {
                    Phase::Delivering(c) => c@,
                    _ => Seq::empty(),
                };
                self.phase = Phase::Awaiting;
                self.delivered = Ghost(self.delivered@.push(pending));
                RelayAction::AwaitFragment
            },
            RelayEvent::SinkFailed(d) => {
                self.phase = Phase::FailedSink(Ghost(d@));
                RelayAction::Fail(ChatError::Sink(d))
            },
        }
    }
}

} // verus!
