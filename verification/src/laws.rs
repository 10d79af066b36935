//! Laws of the engine, proved about the model that its contracts speak of.
//!
//! A history is the sequence of calls that parties make against one stream
//! after its creation. The laws say what holds of a stream after any history,
//! whoever calls and whatever the clock reads.

use vstd::prelude::*;
use crate::accrual::{lemma_settle_amount_bounds, lemma_settle_amount_monotonic};
use crate::error::StreamError;
use crate::model::StreamView;

verus! {

/// One call made against a stream.
pub enum Call {
    /// `caller` asks at `now` for a withdrawal.
    Withdraw { caller: Seq<u8>, now: int },
    /// `caller` asks at `now` for the stream to be closed.
    Close { caller: Seq<u8>, now: int },
}

/// The stream after `call` has been made against `stream`.
pub open spec fn stream_after(stream: StreamView, call: Call) -> StreamView {
    match call {
        Call::Withdraw { caller, now } => stream.after_withdraw(caller, now),
        Call::Close { caller, now } => stream.after_close(caller, now),
    }
}

/// What `call` moves from custody to the receiver; nothing where the call is
/// rejected.
pub open spec fn paid_to_receiver(stream: StreamView, call: Call) -> nat {
    match call {
        Call::Withdraw { caller, now } => match stream.withdraw_outcome(caller, now) {
            Ok(amount) => amount,
            Err(_) => 0,
        },
        Call::Close { caller, now } => match stream.close_outcome(caller, now) {
            Ok((to_receiver, _)) => to_receiver,
            Err(_) => 0,
        },
    }
}

/// What `call` moves from custody back to the sender; nothing where the call
/// is rejected, and nothing for a withdrawal.
pub open spec fn paid_to_sender(stream: StreamView, call: Call) -> nat {
    match call {
        Call::Withdraw { .. } => 0,
        Call::Close { caller, now } => match stream.close_outcome(caller, now) {
            Ok((_, to_sender)) => to_sender,
            Err(_) => 0,
        },
    }
}

/// The stream after all of `calls` have been made against `stream`, one
/// after the other.
pub open spec fn stream_after_all(stream: StreamView, calls: Seq<Call>) -> StreamView
    decreases calls.len(),
{
    if calls.len() == 0 {
        stream
    } else {
        stream_after(stream_after_all(stream, calls.drop_last()), calls.last())
    }
}

/// What `calls` together move from custody to the receiver.
pub open spec fn total_to_receiver(stream: StreamView, calls: Seq<Call>) -> nat
    decreases calls.len(),
{
    if calls.len() == 0 {
        0
    } else {
        total_to_receiver(stream, calls.drop_last()) + paid_to_receiver(
            stream_after_all(stream, calls.drop_last()),
            calls.last(),
        )
    }
}

/// What `calls` together move from custody back to the sender.
pub open spec fn total_to_sender(stream: StreamView, calls: Seq<Call>) -> nat
    decreases calls.len(),
{
    if calls.len() == 0 {
        0
    } else {
        total_to_sender(stream, calls.drop_last()) + paid_to_sender(
            stream_after_all(stream, calls.drop_last()),
            calls.last(),
        )
    }
}

/// A call keeps the invariant of a stream, and it only moves the stream
/// forward: the parties, the rate, the creation time and the deposit stay as
/// they are, the amount paid out and the settlement time never go back, and
/// a closed stream is never opened again.
pub proof fn lemma_call_keeps_invariant(stream: StreamView, call: Call)
    requires
        stream.wf(),
    ensures
        stream_after(stream, call).wf(),
        stream_after(stream, call).sender == stream.sender,
        stream_after(stream, call).receiver == stream.receiver,
        stream_after(stream, call).rate_per_second == stream.rate_per_second,
        stream_after(stream, call).start_time == stream.start_time,
        stream_after(stream, call).total_deposited == stream.total_deposited,
        stream_after(stream, call).total_withdrawn >= stream.total_withdrawn,
        stream_after(stream, call).last_settlement_time >= stream.last_settlement_time,
        stream_after(stream, call).active ==> stream.active,
{
    let now: int = match call {
        Call::Withdraw { now, .. } => now,
        Call::Close { now, .. } => now,
    };
    lemma_settle_amount_bounds(
        stream.rate_per_second,
        stream.total_deposited,
        stream.total_withdrawn,
        stream.last_settlement_time,
        now,
    );
}

/// After every call of any history, no more has been paid out of a stream
/// than was deposited into it, and its settlement time is not before its
/// creation.
pub proof fn lemma_invariant_after_every_call(stream: StreamView, calls: Seq<Call>)
    requires
        stream.wf(),
    ensures
        forall|n: int|
            0 <= n <= calls.len() ==> (#[trigger] stream_after_all(stream, calls.take(n))).wf(),
        stream_after_all(stream, calls).wf(),
        stream_after_all(stream, calls).total_withdrawn <= stream_after_all(
            stream,
            calls,
        ).total_deposited,
        stream_after_all(stream, calls).total_deposited == stream.total_deposited,
    decreases calls.len(),
{
    if calls.len() > 0 {
        let earlier: Seq<Call> = calls.drop_last();
        lemma_invariant_after_every_call(stream, earlier);
        lemma_call_keeps_invariant(stream_after_all(stream, earlier), calls.last());
        assert forall|n: int| 0 <= n <= calls.len() implies (#[trigger] stream_after_all(
            stream,
            calls.take(n),
        )).wf() by {
            if n == calls.len() {
                assert(calls.take(n) == calls);
            } else {
                assert(calls.take(n) == earlier.take(n));
            }
        }
    } else {
        assert forall|n: int| 0 <= n <= calls.len() implies (#[trigger] stream_after_all(
            stream,
            calls.take(n),
        )).wf() by {
            assert(calls.take(n) == calls);
        }
    }
}

/// A withdrawal that has succeeded cannot be repeated at the same instant:
/// the second call is rejected because nothing is left to withdraw. A
/// withdrawal that has been rejected is rejected again for the same reason.
pub proof fn lemma_withdraw_twice_at_one_instant(stream: StreamView, caller: Seq<u8>, now: int)
    ensures
        stream.withdraw_outcome(caller, now) is Ok ==> stream.after_withdraw(
            caller,
            now,
        ).withdraw_outcome(caller, now) == Err::<nat, StreamError>(
            StreamError::NothingToWithdraw,
        ),
        stream.withdraw_outcome(caller, now) is Err ==> stream.after_withdraw(
            caller,
            now,
        ).withdraw_outcome(caller, now) == stream.withdraw_outcome(caller, now),
{
    if stream.withdraw_outcome(caller, now) is Ok {
        let after: StreamView = stream.after_withdraw(caller, now);
        assert(after.last_settlement_time == now);
        assert(after.rate_per_second * 0 == 0);
    }
}

/// Value is conserved by every call: what a call moves to the receiver and to
/// the sender is what leaves the custody of the stream.
pub proof fn lemma_call_conserves_value(stream: StreamView, call: Call)
    requires
        stream.wf(),
    ensures
        paid_to_receiver(stream, call) + paid_to_sender(stream, call) + stream_after(
            stream,
            call,
        ).escrowed() == stream.escrowed(),
{
    let now: int = match call {
        Call::Withdraw { now, .. } => now,
        Call::Close { now, .. } => now,
    };
    lemma_settle_amount_bounds(
        stream.rate_per_second,
        stream.total_deposited,
        stream.total_withdrawn,
        stream.last_settlement_time,
        now,
    );
}

/// Value is conserved by every history: what has moved to the receiver, what
/// has moved back to the sender and what is still in custody add up to what
/// was in custody at the start.
pub proof fn lemma_history_conserves_value(stream: StreamView, calls: Seq<Call>)
    requires
        stream.wf(),
    ensures
        total_to_receiver(stream, calls) + total_to_sender(stream, calls) + stream_after_all(
            stream,
            calls,
        ).escrowed() == stream.escrowed(),
    decreases calls.len(),
{
    if calls.len() > 0 {
        let earlier: Seq<Call> = calls.drop_last();
        lemma_history_conserves_value(stream, earlier);
        lemma_invariant_after_every_call(stream, earlier);
        lemma_call_conserves_value(stream_after_all(stream, earlier), calls.last());
    }
}

/// Conservation: of a stream that has been created with a deposit of
/// `amount` and has reached its closed state, the receiver and the sender
/// have together been paid `amount`, exactly.
pub proof fn lemma_closed_stream_paid_out_deposit(
    sender: Seq<u8>,
    receiver: Seq<u8>,
    rate_per_second: nat,
    amount: nat,
    start: int,
    calls: Seq<Call>,
)
    requires
        !stream_after_all(
            StreamView::created(sender, receiver, rate_per_second, amount, start),
            calls,
        ).active,
    ensures
        total_to_receiver(
            StreamView::created(sender, receiver, rate_per_second, amount, start),
            calls,
        ) + total_to_sender(
            StreamView::created(sender, receiver, rate_per_second, amount, start),
            calls,
        ) == amount,
{
    let stream: StreamView = StreamView::created(
        sender,
        receiver,
        rate_per_second,
        amount,
        start,
    );
    lemma_history_conserves_value(stream, calls);
}

/// Accrual is monotonic: as long as nothing is withdrawn, what is claimable
/// at a later time is no less than what is claimable at an earlier time.
pub proof fn lemma_claimable_monotonic(stream: StreamView, earlier: int, later: int)
    requires
        earlier <= later,
    ensures
        stream.claimable(earlier) <= stream.claimable(later),
{
    lemma_settle_amount_monotonic(
        stream.rate_per_second,
        stream.total_deposited,
        stream.total_withdrawn,
        stream.last_settlement_time,
        earlier,
        later,
    );
}

/// Only the receiver withdraws: a withdrawal that any other party asks for is
/// rejected and leaves the stream as it was, and of an active stream it is
/// rejected as unauthorized.
pub proof fn lemma_withdraw_by_stranger_rejected(stream: StreamView, caller: Seq<u8>, now: int)
    requires
        caller != stream.receiver,
    ensures
        stream.withdraw_outcome(caller, now) is Err,
        stream.after_withdraw(caller, now) == stream,
        stream.active ==> stream.withdraw_outcome(caller, now) == Err::<nat, StreamError>(
            StreamError::Unauthorized,
        ),
{
}

/// Only the sender closes: closing that any other party asks for is rejected
/// and leaves the stream as it was, and of an active stream it is rejected as
/// unauthorized.
pub proof fn lemma_close_by_stranger_rejected(stream: StreamView, caller: Seq<u8>, now: int)
    requires
        caller != stream.sender,
    ensures
        stream.close_outcome(caller, now) is Err,
        stream.after_close(caller, now) == stream,
        stream.active ==> stream.close_outcome(caller, now) == Err::<(nat, nat), StreamError>(
            StreamError::Unauthorized,
        ),
{
}

/// A closed stream is final: every further history leaves it exactly as it
/// is and moves no value, and nothing is ever claimable from it.
pub proof fn lemma_closed_stream_is_final(stream: StreamView, calls: Seq<Call>, now: int)
    requires
        !stream.active,
    ensures
        stream_after_all(stream, calls) == stream,
        total_to_receiver(stream, calls) == 0,
        total_to_sender(stream, calls) == 0,
        stream.claimable(now) == 0,
    decreases calls.len(),
{
    if calls.len() > 0 {
        lemma_closed_stream_is_final(stream, calls.drop_last(), now);
    }
}

/// Closing succeeds for the sender of an active stream whatever the clock
/// reads, empties the custody and ends the stream.
pub proof fn lemma_close_empties_custody(stream: StreamView, now: int)
    requires
        stream.wf(),
        stream.active,
    ensures
        stream.close_outcome(stream.sender, now) is Ok,
        !stream.after_close(stream.sender, now).active,
        stream.after_close(stream.sender, now).escrowed() == 0,
        paid_to_receiver(stream, Call::Close { caller: stream.sender, now }) + paid_to_sender(
            stream,
            Call::Close { caller: stream.sender, now },
        ) == stream.remaining(),
{
    lemma_settle_amount_bounds(
        stream.rate_per_second,
        stream.total_deposited,
        stream.total_withdrawn,
        stream.last_settlement_time,
        now,
    );
}

} // verus!
