//! Submission of search requests: the single-slot hand-off between the
//! foreground and the background dispatcher loop.
//!
//! Requests travel through a bounded channel of capacity 1. A submitter that
//! finds the slot occupied blocks until the dispatcher loop has taken the
//! pending request — the submission backpressure — or uses the non-blocking
//! submit and is told the slot is occupied. The dispatcher loop takes
//! requests one at a time and assigns each the next generation from the
//! shared counter; it never waits for the run it launches, so several runs
//! may be in flight while at most one request is ever queued.

use vstd::prelude::*;

use crate::generation::GenerationCounter;

verus! {

/// One submitted request: the query text to run. A file-change signal
/// re-submits the last query through the same slot, exactly as a keystroke
/// would.
pub struct Query {
    pub query: String,
}

#[verifier::external_type_specification]
#[verifier::external_body]
#[verifier::reject_recursive_types(T)]
pub struct ExSender<T>(crossbeam_channel::Sender<T>);

#[verifier::external_type_specification]
#[verifier::external_body]
#[verifier::reject_recursive_types(T)]
pub struct ExReceiver<T>(crossbeam_channel::Receiver<T>);

/// The outcome of a non-blocking submission attempt.
pub enum TrySubmit {
    /// The request went into the slot.
    Accepted,
    /// The slot still holds an unconsumed request; the query comes back to
    /// the caller untouched.
    Occupied(Query),
    /// The dispatcher loop is gone — shutdown; the query comes back to the
    /// caller untouched.
    Closed(Query),
}

/// Relies on `crossbeam_channel::bounded`: a first-in-first-out channel that
/// holds at most `cap` messages at a time.
#[verifier::external_body]
fn bounded_channel(cap: usize) -> (r: (
    crossbeam_channel::Sender<Query>,
    crossbeam_channel::Receiver<Query>,
)) {
    crossbeam_channel::bounded(cap)
}

/// Relies on `crossbeam_channel::Sender::send`: blocks while the channel is
/// full, succeeds once the message is in, and returns the message itself
/// when every receiver is gone.
#[verifier::external_body]
fn send_request(s: &crossbeam_channel::Sender<Query>, q: Query) -> (r: Result<(), Query>)
    ensures
        r matches Err(back) ==> back == q,
{
    match s.send(q) {
        Ok(()) => Ok(()),
        Err(e) => Err(e.0),
    }
}

/// Relies on `crossbeam_channel::Sender::try_send`: never blocks; reports a
/// full channel or a gone receiver, giving the message back either way.
#[verifier::external_body]
fn try_send_request(s: &crossbeam_channel::Sender<Query>, q: Query) -> (r: TrySubmit)
    ensures
        r matches TrySubmit::Occupied(back) ==> back == q,
        r matches TrySubmit::Closed(back) ==> back == q,
{
    match s.try_send(q) {
        Ok(()) => TrySubmit::Accepted,
        Err(crossbeam_channel::TrySendError::Full(m)) => TrySubmit::Occupied(m),
        Err(crossbeam_channel::TrySendError::Disconnected(m)) => TrySubmit::Closed(m),
    }
}

/// Relies on `crossbeam_channel::Receiver::recv`: blocks until a message
/// arrives; `None` once the channel is empty and every sender is gone.
#[verifier::external_body]
fn recv_request(r: &crossbeam_channel::Receiver<Query>) -> (q: Option<Query>) {
    match r.recv() {
        Ok(q) => Option::Some(q),
        Err(_) => Option::None,
    }
}

/// The submitting half of the request slot: what keystrokes and file-change
/// signals talk to.
pub struct QueryDispatcher {
    sender: crossbeam_channel::Sender<Query>,
}

/// The consuming half: the background loop's end of the slot.
pub struct RequestSource {
    receiver: crossbeam_channel::Receiver<Query>,
}

impl QueryDispatcher {
    /// Makes the single-slot request channel: one submitting half, one
    /// consuming half.
    pub fn new() -> (QueryDispatcher, RequestSource) {
        let (s, r) = bounded_channel(1);
        (QueryDispatcher { sender: s }, RequestSource { receiver: r })
    }

    /// Submits a request, blocking while the slot is occupied — a caller
    /// that cannot tolerate blocking must run this off its latency-sensitive
    /// thread, or use [`Self::try_submit`]. An error means the dispatcher
    /// loop has shut down, which is unrecoverable; the query comes back
    /// untouched.
    pub fn submit(&self, q: Query) -> (r: Result<(), Query>)
        ensures
            r matches Err(back) ==> back == q,
    {
        send_request(&self.sender, q)
    }

    /// Submits without blocking, reporting an occupied slot instead of
    /// waiting for it.
    pub fn try_submit(&self, q: Query) -> (r: TrySubmit)
        ensures
            r matches TrySubmit::Occupied(back) ==> back == q,
            r matches TrySubmit::Closed(back) ==> back == q,
    {
        try_send_request(&self.sender, q)
    }
}

impl RequestSource {
    /// One dispatcher-loop step: waits for the next request and assigns it
    /// the next generation from the shared counter — generations are handed
    /// out in the order requests are accepted, which is what makes "stale"
    /// well-defined. `None` means every submitter is gone: shutdown, after
    /// which no further search is possible.
    pub fn accept(&self, counter: &GenerationCounter) -> (r: Option<(Query, u64)>) {
        match recv_request(&self.receiver) {
            Option::Some(q) => Option::Some((q, counter.next())),
            Option::None => Option::None,
        }
    }
}

} // verus!
