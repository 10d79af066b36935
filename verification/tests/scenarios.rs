use flowsol::engine::{
    close_stream, create_stream, get_claimable_amount, withdraw, CloseStream, CreateStream,
    GetClaimableAmount, Withdraw,
};
use flowsol::error::StreamError;
use flowsol::identity::PartyId;
use flowsol::stream::StreamAccount;

fn alice() -> PartyId {
    PartyId { bytes: [1u8; 32] }
}

fn bob() -> PartyId {
    PartyId { bytes: [2u8; 32] }
}

fn mallory() -> PartyId {
    let mut bytes = [2u8; 32];
    bytes[31] = 3;
    PartyId { bytes }
}

fn open_stream(rate_per_second: u64, amount: u64, now: i64) -> StreamAccount {
    let ctx = CreateStream {
        sender: alice(),
        receiver: bob(),
        occupied: false,
        sender_balance: u64::MAX,
    };
    create_stream(&ctx, rate_per_second, amount, now).unwrap()
}

#[test]
fn create_initialises_the_record() {
    let ctx = CreateStream {
        sender: alice(),
        receiver: bob(),
        occupied: false,
        sender_balance: 100_000_000,
    };
    let stream = create_stream(&ctx, 1_000_000, 100_000_000, 17).unwrap();
    assert_eq!(stream.sender(), alice());
    assert_eq!(stream.receiver(), bob());
    assert_eq!(stream.rate_per_second(), 1_000_000);
    assert_eq!(stream.start_time(), 17);
    assert_eq!(stream.last_settlement_time(), 17);
    assert_eq!(stream.total_deposited(), 100_000_000);
    assert_eq!(stream.total_withdrawn(), 0);
    assert!(stream.active());
}

#[test]
fn create_rejects_an_occupied_location() {
    let ctx = CreateStream {
        sender: alice(),
        receiver: bob(),
        occupied: true,
        sender_balance: 100,
    };
    assert_eq!(create_stream(&ctx, 1, 10, 0), Err(StreamError::AlreadyExists));
}

#[test]
fn create_rejects_a_deposit_beyond_the_balance() {
    let ctx = CreateStream {
        sender: alice(),
        receiver: bob(),
        occupied: false,
        sender_balance: 9,
    };
    assert_eq!(create_stream(&ctx, 1, 10, 0), Err(StreamError::InsufficientFunds));
    assert!(create_stream(&ctx, 1, 9, 0).is_ok());
}

#[test]
fn create_reports_the_occupied_location_before_the_balance() {
    let ctx = CreateStream {
        sender: alice(),
        receiver: bob(),
        occupied: true,
        sender_balance: 0,
    };
    assert_eq!(create_stream(&ctx, 1, 10, 0), Err(StreamError::AlreadyExists));
}

#[test]
fn create_accepts_an_empty_deposit() {
    let stream = open_stream(5, 0, 0);
    assert_eq!(stream.total_deposited(), 0);
    assert!(stream.active());
    let mut ctx = Withdraw { stream, caller: bob() };
    assert_eq!(withdraw(&mut ctx, 1_000), Err(StreamError::NothingToWithdraw));
    assert_eq!(get_claimable_amount(&GetClaimableAmount { stream }, 1_000), 0);
}

#[test]
fn create_accepts_a_stream_to_oneself() {
    let ctx = CreateStream {
        sender: alice(),
        receiver: alice(),
        occupied: false,
        sender_balance: 10,
    };
    let stream = create_stream(&ctx, 1, 10, 0).unwrap();
    assert_eq!(stream.sender(), stream.receiver());
}

#[test]
fn withdraw_at_the_boundary() {
    let stream = open_stream(1_000_000, 100_000_000, 0);
    let mut ctx = Withdraw { stream, caller: bob() };

    assert_eq!(withdraw(&mut ctx, 50), Ok(50_000_000));
    assert_eq!(ctx.stream.total_withdrawn(), 50_000_000);
    assert_eq!(ctx.stream.last_settlement_time(), 50);

    assert_eq!(withdraw(&mut ctx, 50), Err(StreamError::NothingToWithdraw));
    assert_eq!(ctx.stream.total_withdrawn(), 50_000_000);
    assert_eq!(ctx.stream.last_settlement_time(), 50);

    assert_eq!(withdraw(&mut ctx, 200), Ok(50_000_000));
    assert_eq!(ctx.stream.total_withdrawn(), 100_000_000);
    assert_eq!(ctx.stream.last_settlement_time(), 200);
    assert!(ctx.stream.active());
}

#[test]
fn close_after_everything_was_withdrawn() {
    let stream = open_stream(1_000_000, 100_000_000, 0);
    let mut ctx = Withdraw { stream, caller: bob() };
    assert_eq!(withdraw(&mut ctx, 50), Ok(50_000_000));
    assert_eq!(withdraw(&mut ctx, 200), Ok(50_000_000));

    let mut closing = CloseStream { stream: ctx.stream, caller: alice() };
    assert_eq!(close_stream(&mut closing, 300), Ok((0, 0)));
    assert!(!closing.stream.active());
    assert_eq!(closing.stream.total_withdrawn(), 100_000_000);
    assert_eq!(closing.stream.last_settlement_time(), 200);
}

#[test]
fn close_splits_the_custody() {
    let stream = open_stream(1_000_000, 100_000_000, 0);
    let mut ctx = Withdraw { stream, caller: bob() };
    assert_eq!(withdraw(&mut ctx, 10), Ok(10_000_000));

    let mut closing = CloseStream { stream: ctx.stream, caller: alice() };
    assert_eq!(close_stream(&mut closing, 30), Ok((20_000_000, 70_000_000)));
    assert!(!closing.stream.active());
    assert_eq!(closing.stream.total_withdrawn(), 30_000_000);
    assert_eq!(closing.stream.total_deposited(), 100_000_000);
    assert_eq!(closing.stream.last_settlement_time(), 30);
    assert_eq!(closing.stream.start_time(), 0);
}

#[test]
fn close_at_creation_time_refunds_everything() {
    let stream = open_stream(7, 1_000, 40);
    let mut closing = CloseStream { stream, caller: alice() };
    assert_eq!(close_stream(&mut closing, 40), Ok((0, 1_000)));
    assert!(!closing.stream.active());
    assert_eq!(closing.stream.total_withdrawn(), 0);
    assert_eq!(closing.stream.last_settlement_time(), 40);
}

#[test]
fn close_long_after_the_deposit_ran_out() {
    let stream = open_stream(7, 1_000, 0);
    let mut closing = CloseStream { stream, caller: alice() };
    assert_eq!(close_stream(&mut closing, 1_000_000), Ok((1_000, 0)));
    assert_eq!(closing.stream.total_withdrawn(), 1_000);
}

#[test]
fn closed_stream_rejects_every_call() {
    let stream = open_stream(1, 100, 0);
    let mut closing = CloseStream { stream, caller: alice() };
    assert_eq!(close_stream(&mut closing, 10), Ok((10, 90)));
    let closed = closing.stream;

    assert_eq!(close_stream(&mut closing, 20), Err(StreamError::NotActive));
    assert_eq!(closing.stream, closed);

    let mut ctx = Withdraw { stream: closed, caller: bob() };
    assert_eq!(withdraw(&mut ctx, 20), Err(StreamError::NotActive));
    assert_eq!(ctx.stream, closed);

    let mut stranger = Withdraw { stream: closed, caller: mallory() };
    assert_eq!(withdraw(&mut stranger, 20), Err(StreamError::NotActive));
    assert_eq!(stranger.stream, closed);

    assert_eq!(get_claimable_amount(&GetClaimableAmount { stream: closed }, 20), 0);
    assert_eq!(get_claimable_amount(&GetClaimableAmount { stream: closed }, i64::MAX), 0);
}

#[test]
fn withdraw_by_another_party_is_unauthorized() {
    let stream = open_stream(1_000_000, 100_000_000, 0);
    for caller in [alice(), mallory(), PartyId { bytes: [0u8; 32] }] {
        let mut ctx = Withdraw { stream, caller };
        assert_eq!(withdraw(&mut ctx, 50), Err(StreamError::Unauthorized));
        assert_eq!(ctx.stream, stream);
        assert_eq!(ctx.caller, caller);
    }
}

#[test]
fn withdraw_by_another_party_is_unauthorized_even_with_nothing_accrued() {
    let stream = open_stream(1_000_000, 100_000_000, 10);
    let mut ctx = Withdraw { stream, caller: mallory() };
    assert_eq!(withdraw(&mut ctx, 10), Err(StreamError::Unauthorized));
    assert_eq!(ctx.stream, stream);
}

#[test]
fn close_by_another_party_is_unauthorized() {
    let stream = open_stream(1_000_000, 100_000_000, 0);
    for caller in [bob(), mallory()] {
        let mut ctx = CloseStream { stream, caller };
        assert_eq!(close_stream(&mut ctx, 50), Err(StreamError::Unauthorized));
        assert_eq!(ctx.stream, stream);
        assert!(ctx.stream.active());
    }
}

#[test]
fn withdraw_with_nothing_accrued_is_rejected() {
    let stream = open_stream(1_000_000, 100_000_000, 100);
    let mut ctx = Withdraw { stream, caller: bob() };
    assert_eq!(withdraw(&mut ctx, 100), Err(StreamError::NothingToWithdraw));
    assert_eq!(ctx.stream, stream);
}

#[test]
fn withdraw_at_rate_zero_is_rejected() {
    let stream = open_stream(0, 100, 0);
    let mut ctx = Withdraw { stream, caller: bob() };
    assert_eq!(withdraw(&mut ctx, 1_000_000), Err(StreamError::NothingToWithdraw));
    let mut closing = CloseStream { stream, caller: alice() };
    assert_eq!(close_stream(&mut closing, 1_000_000), Ok((0, 100)));
}

#[test]
fn clock_that_went_back_counts_as_no_time() {
    let stream = open_stream(1_000_000, 100_000_000, 100);
    assert_eq!(get_claimable_amount(&GetClaimableAmount { stream }, 99), 0);
    assert_eq!(get_claimable_amount(&GetClaimableAmount { stream }, i64::MIN), 0);

    let mut ctx = Withdraw { stream, caller: bob() };
    assert_eq!(withdraw(&mut ctx, 40), Err(StreamError::NothingToWithdraw));
    assert_eq!(ctx.stream, stream);

    let mut closing = CloseStream { stream, caller: alice() };
    assert_eq!(close_stream(&mut closing, 40), Ok((0, 100_000_000)));
    assert_eq!(closing.stream.last_settlement_time(), 100);
    assert!(!closing.stream.active());
}

#[test]
fn claimable_reads_without_writing() {
    let stream = open_stream(3, 1_000, 0);
    let ctx = GetClaimableAmount { stream };
    assert_eq!(get_claimable_amount(&ctx, 0), 0);
    assert_eq!(get_claimable_amount(&ctx, 1), 3);
    assert_eq!(get_claimable_amount(&ctx, 100), 300);
    assert_eq!(get_claimable_amount(&ctx, 333), 999);
    assert_eq!(get_claimable_amount(&ctx, 334), 1_000);
    assert_eq!(get_claimable_amount(&ctx, 100), 300);
    assert_eq!(ctx.stream, stream);
}

#[test]
fn claimable_follows_the_last_settlement() {
    let stream = open_stream(3, 1_000, 0);
    let mut ctx = Withdraw { stream, caller: bob() };
    assert_eq!(withdraw(&mut ctx, 100), Ok(300));
    let query = GetClaimableAmount { stream: ctx.stream };
    assert_eq!(get_claimable_amount(&query, 100), 0);
    assert_eq!(get_claimable_amount(&query, 110), 30);
    assert_eq!(get_claimable_amount(&query, 1_000), 700);
}
