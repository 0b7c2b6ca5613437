use vstd::prelude::*;

verus! {

/// What the scheduler, or the raw transfer call, answered to the last action
/// of a read or a write on the master descriptor.
#[derive(Debug, Clone, Copy, PartialEq, Eq, Structural)]
pub enum IoEvent {
    /// The descriptor is not ready; the scheduler will wake the task.
    NotReady,
    /// The scheduler signalled that the descriptor is ready.
    Ready,
    /// Waiting for readiness failed.
    ReadyFailed,
    /// The raw call moved this many bytes; zero on a read is end of stream.
    Transferred(usize),
    /// The raw call would have blocked: the readiness signal was stale.
    WouldBlock,
    /// The raw call reported an operating system error.
    TransferFailed,
}

/// What a read or a write does next.
#[derive(Debug, Clone, Copy, PartialEq, Eq, Structural)]
pub enum IoAction {
    /// Return to the scheduler and wait to be woken.
    Suspend,
    /// Make the raw call now.
    Attempt,
    /// Wait for a fresh readiness signal before any further attempt.
    AwaitReadiness,
    /// Report this many bytes moved.
    Complete(usize),
    /// Report the error.
    Fail,
}

/// One step of a read or a write: wait for readiness, attempt the raw call,
/// and on a would-block wait again, without ever reporting it as an error.
pub fn io_step(e: IoEvent) -> (a: IoAction)
    ensures
        e is NotReady ==> a is Suspend,
        e is ReadyFailed ==> a is Fail,
        e is TransferFailed ==> a is Fail,
        e matches IoEvent::Transferred(n) ==> a == IoAction::Complete(n),
        // End of stream is a completion of zero bytes, not an error.
        e == IoEvent::Transferred(0) ==> a == IoAction::Complete(0),
        // A would-block is never surfaced and never retried at once.
        e is WouldBlock ==> a is AwaitReadiness,
        // A raw call is made only on a readiness signal.
        a is Attempt <==> e is Ready,
{
    match e {
        IoEvent::NotReady => IoAction::Suspend,
        IoEvent::Ready => IoAction::Attempt,
        IoEvent::ReadyFailed => IoAction::Fail,
        IoEvent::Transferred(n) => IoAction::Complete(n),
        IoEvent::WouldBlock => IoAction::AwaitReadiness,
        IoEvent::TransferFailed => IoAction::Fail,
    }
}

/// The bytes accepted over a sequence of writes.
pub open spec fn accepted_total(accepted: Seq<usize>) -> nat
    decreases accepted.len(),
{
    if accepted.len() == 0 {
        0
    } else {
        accepted_total(accepted.drop_last()) + accepted.last() as nat
    }
}

/// Whether each write of `accepted` was handed what was still left of
/// `requested` and accepted no more than that.
pub open spec fn resubmits_remainder(requested: nat, accepted: Seq<usize>) -> bool {
    forall|i: int| 0 <= i < accepted.len() ==>
        #[trigger] accepted[i] <= requested - accepted_total(accepted.take(i))
}

/// Partial writes: where each write is handed what is left of `requested` and
/// completes with the count it accepted, the writes together never accept more
/// than `requested`, so what is left never drops below zero; and where each
/// write accepts at least one byte, there are no more writes than bytes
/// accepted, so the transfer is complete after at most `requested` writes.
pub proof fn lemma_resubmitted_writes_complete(requested: nat, accepted: Seq<usize>)
    requires
        resubmits_remainder(requested, accepted),
    ensures
        accepted_total(accepted) <= requested,
        (forall|i: int| 0 <= i < accepted.len() ==> #[trigger] accepted[i] > 0)
            ==> accepted.len() <= accepted_total(accepted),
    decreases accepted.len(),
{
    if accepted.len() > 0 {
        let prefix = accepted.drop_last();
        assert forall|i: int| 0 <= i < prefix.len() implies #[trigger] prefix[i] <= requested
            - accepted_total(prefix.take(i)) by {
            assert(prefix.take(i) =~= accepted.take(i));
            assert(accepted[i] <= requested - accepted_total(accepted.take(i)));
        }
        lemma_resubmitted_writes_complete(requested, prefix);
        let k = accepted.len() - 1;
        assert(accepted.take(k) =~= prefix);
        assert(accepted[k] <= requested - accepted_total(accepted.take(k)));
    }
}

} // verus!
