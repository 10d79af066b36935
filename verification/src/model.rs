//! The mathematical model of a stream: the record as unbounded numbers, and
//! what each operation does to it.
//!
//! Every contract of the engine is stated over this model, and the laws of
//! the engine are proved about it.

use vstd::prelude::*;
use crate::accrual::{remaining_deposit, spec_settle_amount};
use crate::error::StreamError;

verus! {

/// A stream as the contracts see it.
pub struct StreamView {
    /// The party that funds the stream and may close it.
    pub sender: Seq<u8>,
    /// The party that the deposit streams to.
    pub receiver: Seq<u8>,
    /// Units of value that accrue to the receiver per second.
    pub rate_per_second: nat,
    /// When the stream was created.
    pub start_time: int,
    /// The instant up to which accrual has been paid out.
    pub last_settlement_time: int,
    /// What the sender committed at creation.
    pub total_deposited: nat,
    /// What has been paid out to the receiver so far.
    pub total_withdrawn: nat,
    /// True from creation until the stream is closed.
    pub active: bool,
}

impl StreamView {
    /// The invariant of a stream: no more has been paid out than was
    /// deposited, and settlement never precedes creation.
    pub open spec fn wf(self) -> bool {
        &&& self.total_withdrawn <= self.total_deposited
        &&& self.start_time <= self.last_settlement_time
    }

    /// The stream that creation at `now` produces.
    pub open spec fn created(
        sender: Seq<u8>,
        receiver: Seq<u8>,
        rate_per_second: nat,
        amount: nat,
        now: int,
    ) -> StreamView {
        StreamView {
            sender,
            receiver,
            rate_per_second,
            start_time: now,
            last_settlement_time: now,
            total_deposited: amount,
            total_withdrawn: 0,
            active: true,
        }
    }

    /// What is left of the deposit.
    pub open spec fn remaining(self) -> nat {
        remaining_deposit(self.total_deposited, self.total_withdrawn)
    }

    /// What the stream holds in custody: the rest of the deposit while the
    /// stream is active, nothing once it is closed.
    pub open spec fn escrowed(self) -> nat {
        if self.active {
            self.remaining()
        } else {
            0
        }
    }

    /// What a settlement at `now` would pay to the receiver.
    pub open spec fn settle_amount(self, now: int) -> nat {
        spec_settle_amount(
            self.rate_per_second,
            self.total_deposited,
            self.total_withdrawn,
            self.last_settlement_time,
            now,
        )
    }

    /// What the receiver could withdraw at `now`: the settle amount of an
    /// active stream, nothing of a closed one.
    pub open spec fn claimable(self, now: int) -> nat {
        if self.active {
            self.settle_amount(now)
        } else {
            0
        }
    }

    /// The stream after a settlement at `now`. Where something has accrued it
    /// counts as paid out and the settlement time moves to `now`; where
    /// nothing has, the stream stays as it is.
    pub open spec fn settled(self, now: int) -> StreamView {
        let amount: nat = self.settle_amount(now);
        if amount > 0 {
            StreamView {
                total_withdrawn: self.total_withdrawn + amount,
                last_settlement_time: now,
                ..self
            }
        } else {
            self
        }
    }

    /// What a withdrawal by `caller` at `now` returns: the amount that moves
    /// from custody to the receiver, or the reason for which it is rejected.
    pub open spec fn withdraw_outcome(self, caller: Seq<u8>, now: int) -> Result<
        nat,
        StreamError,
    > {
        if !self.active {
            Err(StreamError::NotActive)
        } else if caller != self.receiver {
            Err(StreamError::Unauthorized)
        } else if self.settle_amount(now) == 0 {
            Err(StreamError::NothingToWithdraw)
        } else {
            Ok(self.settle_amount(now))
        }
    }

    /// The stream after a withdrawal by `caller` at `now`: settled where the
    /// withdrawal succeeds, untouched where it is rejected.
    pub open spec fn after_withdraw(self, caller: Seq<u8>, now: int) -> StreamView {
        if self.withdraw_outcome(caller, now) is Ok {
            self.settled(now)
        } else {
            self
        }
    }

    /// What closing by `caller` at `now` returns: the final accrual that moves
    /// to the receiver and the rest of the deposit that moves back to the
    /// sender, in this order, or the reason for which it is rejected.
    pub open spec fn close_outcome(self, caller: Seq<u8>, now: int) -> Result<
        (nat, nat),
        StreamError,
    > {
        if !self.active {
            Err(StreamError::NotActive)
        } else if caller != self.sender {
            Err(StreamError::Unauthorized)
        } else {
            Ok((self.settle_amount(now), self.settled(now).remaining()))
        }
    }

    /// The stream after closing by `caller` at `now`: settled and no longer
    /// active where closing succeeds, untouched where it is rejected.
    pub open spec fn after_close(self, caller: Seq<u8>, now: int) -> StreamView {
        if self.close_outcome(caller, now) is Ok {
            StreamView { active: false, ..self.settled(now) }
        } else {
            self
        }
    }
}

/// What creating a stream returns: the new stream, or the reason for which
/// creation is rejected. `occupied` says whether the storage location of the
/// pair already holds a stream, `sender_balance` what the sender can spend.
pub open spec fn create_outcome(
    occupied: bool,
    sender_balance: nat,
    sender: Seq<u8>,
    receiver: Seq<u8>,
    rate_per_second: nat,
    amount: nat,
    now: int,
) -> Result<StreamView, StreamError> {
    if occupied {
        Err(StreamError::AlreadyExists)
    } else if amount > sender_balance {
        Err(StreamError::InsufficientFunds)
    } else {
        Ok(StreamView::created(sender, receiver, rate_per_second, amount, now))
    }
}

} // verus!
