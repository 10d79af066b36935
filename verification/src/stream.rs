//! The persistent record of one stream.

use vstd::prelude::*;
use crate::identity::PartyId;
use crate::model::StreamView;

verus! {

/// The record of one payment stream from a sender to a receiver.
///
/// A record is written at creation, updated by withdrawals and by closing,
/// and never deleted: once closed it stays behind as a receipt. Its fields
/// are private so that every record in existence keeps the invariant of a
/// stream, [`StreamView::wf`]; the engine is the only writer.
#[derive(Clone, Copy, Debug, PartialEq, Eq)]
pub struct StreamAccount {
    pub(crate) sender: PartyId,
    pub(crate) receiver: PartyId,
    pub(crate) rate_per_second: u64,
    pub(crate) start_time: i64,
    pub(crate) last_settlement_time: i64,
    pub(crate) total_deposited: u64,
    pub(crate) total_withdrawn: u64,
    pub(crate) active: bool,
}

impl View for StreamAccount {
    type V = StreamView;

    open(crate) spec fn view(&self) -> StreamView {
        StreamView {
            sender: self.sender@,
            receiver: self.receiver@,
            rate_per_second: self.rate_per_second as nat,
            start_time: self.start_time as int,
            last_settlement_time: self.last_settlement_time as int,
            total_deposited: self.total_deposited as nat,
            total_withdrawn: self.total_withdrawn as nat,
            active: self.active,
        }
    }
}

impl StreamAccount {
    #[verifier::type_invariant]
    pub(crate) open(crate) spec fn inv(&self) -> bool {
        self@.wf()
    }

    /// Rebuilds a record from its stored fields.
    ///
    /// Fields that break the invariant of a stream (more paid out than
    /// deposited, or a settlement before creation) give no record.
    pub fn from_parts(
        sender: PartyId,
        receiver: PartyId,
        rate_per_second: u64,
        start_time: i64,
        last_settlement_time: i64,
        total_deposited: u64,
        total_withdrawn: u64,
        active: bool,
    ) -> (record: Option<StreamAccount>)
        ensures
            record is Some <==> total_withdrawn <= total_deposited && start_time
                <= last_settlement_time,
            record matches Some(stream) ==> stream@ == (StreamView {
                sender: sender@,
                receiver: receiver@,
                rate_per_second: rate_per_second as nat,
                start_time: start_time as int,
                last_settlement_time: last_settlement_time as int,
                total_deposited: total_deposited as nat,
                total_withdrawn: total_withdrawn as nat,
                active,
            }) && stream@.wf(),
    {
        if total_withdrawn <= total_deposited && start_time <= last_settlement_time {
            Some(
                StreamAccount {
                    sender,
                    receiver,
                    rate_per_second,
                    start_time,
                    last_settlement_time,
                    total_deposited,
                    total_withdrawn,
                    active,
                },
            )
        } else {
            None
        }
    }

    /// The party that funds the stream and may close it.
    pub fn sender(&self) -> (sender: PartyId)
        ensures
            sender@ == self@.sender,
    {
        self.sender
    }

    /// The party that the deposit streams to.
    pub fn receiver(&self) -> (receiver: PartyId)
        ensures
            receiver@ == self@.receiver,
    {
        self.receiver
    }

    /// Units of value that accrue to the receiver per second.
    pub fn rate_per_second(&self) -> (rate: u64)
        ensures
            rate == self@.rate_per_second,
    {
        self.rate_per_second
    }

    /// When the stream was created.
    pub fn start_time(&self) -> (time: i64)
        ensures
            time == self@.start_time,
            time <= self@.last_settlement_time,
    {
        proof {
            use_type_invariant(self);
        }
        self.start_time
    }

    /// The instant up to which accrual has been paid out.
    pub fn last_settlement_time(&self) -> (time: i64)
        ensures
            time == self@.last_settlement_time,
            time >= self@.start_time,
    {
        proof {
            use_type_invariant(self);
        }
        self.last_settlement_time
    }

    /// What the sender committed at creation.
    pub fn total_deposited(&self) -> (amount: u64)
        ensures
            amount == self@.total_deposited,
            amount >= self@.total_withdrawn,
    {
        proof {
            use_type_invariant(self);
        }
        self.total_deposited
    }

    /// What has been paid out to the receiver so far.
    pub fn total_withdrawn(&self) -> (amount: u64)
        ensures
            amount == self@.total_withdrawn,
            amount <= self@.total_deposited,
    {
        proof {
            use_type_invariant(self);
        }
        self.total_withdrawn
    }

    /// Whether the stream is still open: true from creation until closing.
    pub fn active(&self) -> (active: bool)
        ensures
            active == self@.active,
    {
        self.active
    }
}

} // verus!
