//! The call bridge: one logical call crosses from the blocking dispatch
//! thread into the asynchronous handler environment and comes back as a
//! value, or as a failure, within a bounded wait.
//!
//! Each call owns a fresh single-use rendezvous channel with one writer
//! (the asynchronous completion path) and one reader (the blocking
//! dispatch thread).  The completion path sends `Some(value)` when the
//! handler resolved and `None` when it failed; the reader waits at most
//! `CALL_TIMEOUT_SECS` seconds.  This module holds the decision logic of
//! that rendezvous: how a wait's outcome collapses into the one result a
//! reply is built from, and why each call is answered exactly once.

use vstd::prelude::*;

verus! {

/// Seconds the dispatch thread waits on a call's rendezvous channel
/// before giving up on the asynchronous side.
pub const CALL_TIMEOUT_SECS: u64 = 30;

/// What the bounded wait on a call's rendezvous channel yielded.
pub enum WaitOutcome<T> {
    /// A message arrived within the bound.
    Received(T),
    /// The bound elapsed with no message.
    TimedOut,
    /// The sending side went away without ever sending.
    Closed,
}

/// The bridge's view of one finished call: the handler's value, or a
/// single uniform failure covering a handler rejection, a timeout and a
/// closed channel alike.
pub enum BridgeOutcome<T> {
    Value(T),
    Failure,
}

/// How a wait's outcome collapses: only a `Some(value)` received within
/// the bound carries a value; everything else is the uniform failure.
pub open spec fn spec_resolve_wait<T>(w: WaitOutcome<Option<T>>) -> BridgeOutcome<T> {
    match w {
        WaitOutcome::Received(m) => match m {
            Option::Some(v) => BridgeOutcome::Value(v),
            Option::None => BridgeOutcome::Failure,
        },
        WaitOutcome::TimedOut => BridgeOutcome::Failure,
        WaitOutcome::Closed => BridgeOutcome::Failure,
    }
}

/// Collapse the outcome of the bounded wait on the rendezvous channel.
pub fn resolve_wait<T>(w: WaitOutcome<Option<T>>) -> (r: BridgeOutcome<T>)
    ensures
        r == spec_resolve_wait(w),
{
    match w {
        WaitOutcome::Received(m) => match m {
            Option::Some(v) => BridgeOutcome::Value(v),
            Option::None => BridgeOutcome::Failure,
        },
        WaitOutcome::TimedOut => BridgeOutcome::Failure,
        WaitOutcome::Closed => BridgeOutcome::Failure,
    }
}

/// Phase of one call at the rendezvous: still waiting for its reply, or
/// already answered.
pub enum CallPhase {
    Waiting,
    Replied,
}

/// An event the rendezvous can observe for one call.
pub enum CallEvent<T> {
    /// The completion path delivered the handler's outcome: its value,
    /// or `None` when the handler failed.
    Completion(Option<T>),
    /// The wait's bound elapsed with no message.
    TimeoutFired,
}

/// What one step of the rendezvous does about replying.
pub enum ReplyEffect<T> {
    /// Produce the one reply of this call from the given outcome.
    Reply(BridgeOutcome<T>),
    /// Do nothing: the call has already been answered, so a late
    /// completion is silently dropped.
    Discard,
}

/// One step of a call's life at the rendezvous.  A waiting call is
/// answered by whatever event comes first - a completion with its
/// outcome, or the timeout with the uniform failure - and every event
/// after that is discarded.
pub open spec fn spec_call_step<T>(phase: CallPhase, event: CallEvent<T>) -> (CallPhase,
    ReplyEffect<T>) {
    match phase {
        CallPhase::Waiting => {
            let outcome = match event {
                CallEvent::Completion(m) => spec_resolve_wait(WaitOutcome::Received(m)),
                CallEvent::TimeoutFired => BridgeOutcome::Failure,
            };
            (CallPhase::Replied, ReplyEffect::Reply(outcome))
        },
        CallPhase::Replied => (CallPhase::Replied, ReplyEffect::Discard),
    }
}

/// How many replies a series of events produces, starting in the given
/// phase.
pub open spec fn spec_replies_in<T>(phase: CallPhase, events: Seq<CallEvent<T>>) -> nat
    decreases events.len(),
{
    if events.len() == 0 {
        0
    } else {
        let step = spec_call_step(phase, events[0]);
        (if step.1 is Reply {
            1nat
        } else {
            0nat
        }) + spec_replies_in(step.0, events.drop_first())
    }
}

/// An answered call stays answered: no series of further events makes it
/// reply again.
pub proof fn lemma_replied_discards_all<T>(events: Seq<CallEvent<T>>)
    ensures
        spec_replies_in(CallPhase::Replied, events) == 0,
    decreases events.len(),
{
    if events.len() > 0 {
        lemma_replied_discards_all(events.drop_first());
    }
}

/// Exactly one reply per call: from the waiting phase, any non-empty
/// series of events produces exactly one reply.  The series is never
/// empty, because the bounded wait guarantees a first event: if no
/// completion arrives, the timeout itself fires.
pub proof fn lemma_exactly_one_reply<T>(events: Seq<CallEvent<T>>)
    requires
        events.len() >= 1,
    ensures
        spec_replies_in(CallPhase::Waiting, events) == 1,
{
    lemma_replied_discards_all(events.drop_first());
}

/// A call whose handler never resolves within the bound is answered
/// with the uniform failure by the timeout, and a completion that
/// arrives after that - however the handler resolved - is discarded,
/// never answered a second time.
pub proof fn lemma_timeout_then_late_completion<T>(late: Option<T>)
    ensures
        spec_call_step(CallPhase::Waiting, CallEvent::<T>::TimeoutFired) == (
        CallPhase::Replied,
        ReplyEffect::Reply(BridgeOutcome::<T>::Failure),
        ),
        spec_call_step(CallPhase::Replied, CallEvent::Completion(late)).1 == ReplyEffect::<
            T,
        >::Discard,
{
}

} // verus!
