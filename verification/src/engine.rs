//! The engine: the four operations on a stream.
//!
//! Each operation is one synchronous step. It is handed what its host has
//! resolved for the call (the record, the identity of the caller, the current
//! time) and either commits in full or is rejected without any effect. The
//! engine moves no value itself: it returns the amounts that its host has to
//! move together with the update of the record.

use vstd::prelude::*;
use crate::accrual::{lemma_settle_amount_bounds, settle_amount};
use crate::error::StreamError;
use crate::identity::PartyId;
use crate::model::{create_outcome, StreamView};
use crate::stream::StreamAccount;

verus! {

/// What creating a stream works on.
#[derive(Clone, Copy, Debug)]
pub struct CreateStream {
    /// The party that creates and funds the stream.
    pub sender: PartyId,
    /// The party that the deposit is to stream to.
    pub receiver: PartyId,
    /// Whether the storage location of the pair `(sender, receiver)` already
    /// holds a stream, open or closed.
    pub occupied: bool,
    /// What the sender's balance holds.
    pub sender_balance: u64,
}

/// What a withdrawal works on.
#[derive(Clone, Copy, Debug)]
pub struct Withdraw {
    /// The record of the stream.
    pub stream: StreamAccount,
    /// The party that asks for the withdrawal.
    pub caller: PartyId,
}

/// What closing a stream works on.
#[derive(Clone, Copy, Debug)]
pub struct CloseStream {
    /// The record of the stream.
    pub stream: StreamAccount,
    /// The party that asks for the stream to be closed.
    pub caller: PartyId,
}

/// What the query for the claimable amount works on.
#[derive(Clone, Copy, Debug)]
pub struct GetClaimableAmount {
    /// The record of the stream.
    pub stream: StreamAccount,
}

/// Creates a stream of `amount` from `ctx.sender` to `ctx.receiver` that
/// starts at `now` and accrues `rate_per_second` units per second.
///
/// Creation is rejected with [`StreamError::AlreadyExists`] where the pair
/// already has a stream, and otherwise with
/// [`StreamError::InsufficientFunds`] where the sender's balance does not
/// cover `amount`. On success the host moves `amount` from the sender's
/// balance into custody together with storing the returned record. An
/// `amount` of zero is accepted, and so is a stream from a party to itself.
pub fn create_stream(ctx: &CreateStream, rate_per_second: u64, amount: u64, now: i64) -> (result:
    Result<StreamAccount, StreamError>)
    ensures
        match result {
            Ok(stream) => create_outcome(
                ctx.occupied,
                ctx.sender_balance as nat,
                ctx.sender@,
                ctx.receiver@,
                rate_per_second as nat,
                amount as nat,
                now as int,
            ) == Ok::<StreamView, StreamError>(stream@) && stream@.wf(),
            Err(reason) => create_outcome(
                ctx.occupied,
                ctx.sender_balance as nat,
                ctx.sender@,
                ctx.receiver@,
                rate_per_second as nat,
                amount as nat,
                now as int,
            ) == Err::<StreamView, StreamError>(reason),
        },
{
    if ctx.occupied {
        return Err(StreamError::AlreadyExists);
    }
    if amount > ctx.sender_balance {
        return Err(StreamError::InsufficientFunds);
    }
    Ok(
        StreamAccount {
            sender: ctx.sender,
            receiver: ctx.receiver,
            rate_per_second,
            start_time: now,
            last_settlement_time: now,
            total_deposited: amount,
            total_withdrawn: 0,
            active: true,
        },
    )
}

/// Pays out to the receiver what has accrued up to `now`.
///
/// Returns the amount that the host moves from custody to the receiver; the
/// record counts it as withdrawn and its settlement time becomes `now`. The
/// call is rejected, in this order, where the stream is closed, where the
/// caller is not the receiver, and where nothing has accrued; a rejected call
/// leaves the record as it was.
pub fn withdraw(ctx: &mut Withdraw, now: i64) -> (result: Result<u64, StreamError>)
    ensures
        match result {
            Ok(amount) => old(ctx).stream@.withdraw_outcome(old(ctx).caller@, now as int) == Ok::<
                nat,
                StreamError,
            >(amount as nat),
            Err(reason) => old(ctx).stream@.withdraw_outcome(old(ctx).caller@, now as int)
                == Err::<nat, StreamError>(reason) && *final(ctx) == *old(ctx),
        },
        final(ctx).stream@ == old(ctx).stream@.after_withdraw(old(ctx).caller@, now as int),
        result matches Ok(amount) ==> {
            &&& amount > 0
            &&& final(ctx).stream@.total_withdrawn == old(ctx).stream@.total_withdrawn + amount
            &&& final(ctx).stream@.last_settlement_time == now
        },
        final(ctx).stream@.wf(),
        final(ctx).caller == old(ctx).caller,
{
    proof {
        use_type_invariant(&ctx.stream);
    }
    if !ctx.stream.active {
        return Err(StreamError::NotActive);
    }
    if ctx.caller != ctx.stream.receiver {
        return Err(StreamError::Unauthorized);
    }
    let amount: u64 = settle_amount(
        ctx.stream.rate_per_second,
        ctx.stream.total_deposited,
        ctx.stream.total_withdrawn,
        ctx.stream.last_settlement_time,
        now,
    );
    if amount == 0 {
        return Err(StreamError::NothingToWithdraw);
    }
    proof {
        lemma_settle_amount_bounds(
            ctx.stream.rate_per_second as nat,
            ctx.stream.total_deposited as nat,
            ctx.stream.total_withdrawn as nat,
            ctx.stream.last_settlement_time as int,
            now as int,
        );
    }
    ctx.stream.total_withdrawn = ctx.stream.total_withdrawn + amount;
    ctx.stream.last_settlement_time = now;
    Ok(amount)
}

/// Closes the stream at `now` and settles it for good.
///
/// Returns the two amounts that the host moves out of custody: first what
/// goes to the receiver, the accrual up to `now`, then what goes back to the
/// sender, the rest of the deposit. Together they empty the custody. The
/// receiver's part is settled before the sender's part is computed, so that
/// nothing that accrued since the last withdrawal is lost to the receiver.
/// The call is rejected, in this order, where the stream is closed already
/// and where the caller is not the sender; a rejected call leaves the record
/// as it was.
pub fn close_stream(ctx: &mut CloseStream, now: i64) -> (result: Result<(u64, u64), StreamError>)
    ensures
        match result {
            Ok((to_receiver, to_sender)) => old(ctx).stream@.close_outcome(
                old(ctx).caller@,
                now as int,
            ) == Ok::<(nat, nat), StreamError>((to_receiver as nat, to_sender as nat))
                && to_receiver + to_sender == old(ctx).stream@.escrowed(),
            Err(reason) => old(ctx).stream@.close_outcome(old(ctx).caller@, now as int) == Err::<
                (nat, nat),
                StreamError,
            >(reason) && *final(ctx) == *old(ctx),
        },
        final(ctx).stream@ == old(ctx).stream@.after_close(old(ctx).caller@, now as int),
        result is Ok ==> !final(ctx).stream@.active && final(ctx).stream@.escrowed() == 0,
        final(ctx).stream@.wf(),
        final(ctx).caller == old(ctx).caller,
{
    proof {
        use_type_invariant(&ctx.stream);
    }
    if !ctx.stream.active {
        return Err(StreamError::NotActive);
    }
    if ctx.caller != ctx.stream.sender {
        return Err(StreamError::Unauthorized);
    }
    let to_receiver: u64 = settle_amount(
        ctx.stream.rate_per_second,
        ctx.stream.total_deposited,
        ctx.stream.total_withdrawn,
        ctx.stream.last_settlement_time,
        now,
    );
    proof {
        lemma_settle_amount_bounds(
            ctx.stream.rate_per_second as nat,
            ctx.stream.total_deposited as nat,
            ctx.stream.total_withdrawn as nat,
            ctx.stream.last_settlement_time as int,
            now as int,
        );
    }
    if to_receiver > 0 {
        ctx.stream.total_withdrawn = ctx.stream.total_withdrawn + to_receiver;
        ctx.stream.last_settlement_time = now;
    }
    let to_sender: u64 = ctx.stream.total_deposited - ctx.stream.total_withdrawn;
    ctx.stream.active = false;
    Ok((to_receiver, to_sender))
}

/// What the receiver could withdraw at `now`: nothing of a closed stream,
/// otherwise what has accrued since the last settlement, capped by the rest
/// of the deposit. The query changes nothing.
pub fn get_claimable_amount(ctx: &GetClaimableAmount, now: i64) -> (amount: u64)
    ensures
        amount == ctx.stream@.claimable(now as int),
{
    proof {
        use_type_invariant(&ctx.stream);
    }
    if !ctx.stream.active {
        return 0;
    }
    settle_amount(
        ctx.stream.rate_per_second,
        ctx.stream.total_deposited,
        ctx.stream.total_withdrawn,
        ctx.stream.last_settlement_time,
        now,
    )
}

} // verus!
