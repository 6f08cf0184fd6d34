use soul_streams::errors::CustomErrors;
use soul_streams::events::{
    AmountWithdrawnFromStream, NewStreamCreated, StreamCanceled, StreamReplenished,
};
use soul_streams::lifecycle::{
    cancel_stream, claimable_amount, create_stream, initialize, replenish_stream,
    withdraw_from_stream,
};
use soul_streams::state::{Address, Party, Stream, StreamCount, Transfer};
use soul_streams::vesting::{get_amount_to_emit, vested_amount};

fn addr(b: u8) -> Address {
    Address { bytes: [b; 32] }
}

const T: u64 = 1_700_000_000;

fn new_stream(amount: u64, duration: u64, start: u64) -> (Stream, StreamCount) {
    let mut counter = initialize().0;
    let (stream, _, _) = create_stream(
        &mut counter,
        addr(9),
        addr(1),
        addr(2),
        addr(3),
        amount,
        start,
        duration,
        start,
    )
    .unwrap();
    (stream, counter)
}

fn vault_delta(ts: &[Transfer]) -> i128 {
    let mut d: i128 = 0;
    for t in ts {
        if t.destination == Party::Vault {
            d += t.amount as i128;
        }
        if t.source == Party::Vault {
            d -= t.amount as i128;
        }
    }
    d
}

#[test]
fn amount_to_emit_is_floor_of_linear_share() {
    assert_eq!(get_amount_to_emit(&1000, &100, &50), 500);
    assert_eq!(get_amount_to_emit(&1000, &3, &1), 333);
    assert_eq!(get_amount_to_emit(&7, &10, &0), 0);
    assert_eq!(get_amount_to_emit(&1000, &100, &200), 2000);
}

#[test]
fn vested_amount_saturates_at_principal() {
    assert_eq!(vested_amount(1000, 100, 10), 100);
    assert_eq!(vested_amount(1000, 100, 100), 1000);
    assert_eq!(vested_amount(1000, 100, u64::MAX), 1000);
    assert_eq!(vested_amount(u64::MAX, u64::MAX, u64::MAX - 1), u64::MAX - 1);
}

#[test]
fn initialize_starts_counter_at_one() {
    let (counter, event) = initialize();
    assert_eq!(counter.count, 1);
    assert_eq!(event.stream_count, 1);
}

#[test]
fn create_stream_records_terms_and_funds_vault() {
    let mut counter = StreamCount { count: 4 };
    let (stream, transfers, event) =
        create_stream(&mut counter, addr(9), addr(1), addr(2), addr(3), 1000, T, 100, T - 5)
            .unwrap();
    assert_eq!(counter.count, 5);
    assert_eq!(stream.count, 4);
    assert_eq!(stream.amount, 1000);
    assert_eq!(stream.streamed_amount_so_far, 0);
    assert_eq!(
        transfers,
        vec![Transfer { source: Party::Payer, destination: Party::Vault, amount: 1000 }]
    );
    assert_eq!(
        event,
        NewStreamCreated {
            stream: addr(9),
            payer: addr(1),
            payee: addr(2),
            mint: addr(3),
            amount: 1000,
            starting_timestamp: T,
            duration: 100,
            count: 4,
        }
    );
}

#[test]
fn create_stream_counts_are_never_reused() {
    let mut counter = initialize().0;
    let a = create_stream(&mut counter, addr(9), addr(1), addr(2), addr(3), 5, T, 10, T).unwrap();
    let b = create_stream(&mut counter, addr(8), addr(1), addr(2), addr(3), 5, T, 10, T).unwrap();
    assert_eq!(a.0.count, 1);
    assert_eq!(b.0.count, 2);
    assert_eq!(counter.count, 3);
}

#[test]
fn create_with_zero_amount_creates_nothing() {
    let mut counter = StreamCount { count: 1 };
    let r = create_stream(&mut counter, addr(9), addr(1), addr(2), addr(3), 0, T, 10, T);
    assert_eq!(r.unwrap_err(), CustomErrors::ZeroAmount);
    assert_eq!(counter.count, 1);
}

#[test]
fn create_stream_rejects_zero_duration() {
    let mut counter = StreamCount { count: 1 };
    let r = create_stream(&mut counter, addr(9), addr(1), addr(2), addr(3), 10, T, 0, T);
    assert_eq!(r.unwrap_err(), CustomErrors::ZeroDuration);
    assert_eq!(counter.count, 1);
}

#[test]
fn create_stream_rejects_past_start() {
    let mut counter = StreamCount { count: 1 };
    let r = create_stream(&mut counter, addr(9), addr(1), addr(2), addr(3), 10, T - 1, 10, T);
    assert_eq!(r.unwrap_err(), CustomErrors::InvalidTimestamp);
    assert_eq!(counter.count, 1);
}

#[test]
fn create_stream_checks_amount_before_duration_and_time() {
    let mut counter = StreamCount { count: 1 };
    let r = create_stream(&mut counter, addr(9), addr(1), addr(2), addr(3), 0, 0, 0, T);
    assert_eq!(r.unwrap_err(), CustomErrors::ZeroAmount);
    let r = create_stream(&mut counter, addr(9), addr(1), addr(2), addr(3), 1, 0, 0, T);
    assert_eq!(r.unwrap_err(), CustomErrors::ZeroDuration);
}

#[test]
fn withdraw_half_then_rest_then_nothing() {
    let (mut stream, _) = new_stream(1000, 100, T);
    let (transfers, event) = withdraw_from_stream(&mut stream, addr(9), T + 50).unwrap();
    assert_eq!(
        transfers,
        vec![Transfer { source: Party::Vault, destination: Party::Payee, amount: 500 }]
    );
    assert_eq!(
        event,
        AmountWithdrawnFromStream {
            stream: addr(9),
            payer: addr(1),
            payee: addr(2),
            mint: addr(3),
            amount_withdrawn: 500,
            count: 1,
        }
    );
    assert_eq!(stream.streamed_amount_so_far, 500);
    let (transfers, _) = withdraw_from_stream(&mut stream, addr(9), T + 200).unwrap();
    assert_eq!(transfers[0].amount, 500);
    assert_eq!(stream.streamed_amount_so_far, 1000);
    let before = stream;
    let r = withdraw_from_stream(&mut stream, addr(9), T + 300);
    assert_eq!(r.unwrap_err(), CustomErrors::ZeroAmountToEmit);
    assert_eq!(stream, before);
}

#[test]
fn withdraw_twice_at_same_time_is_refused() {
    let (mut stream, _) = new_stream(1000, 100, T);
    withdraw_from_stream(&mut stream, addr(9), T + 37).unwrap();
    let after_first = stream;
    assert_eq!(after_first.streamed_amount_so_far, 370);
    let r = withdraw_from_stream(&mut stream, addr(9), T + 37);
    assert_eq!(r.unwrap_err(), CustomErrors::ZeroAmountToEmit);
    assert_eq!(stream, after_first);
}

#[test]
fn withdraw_before_start_is_refused() {
    let (mut stream, _) = new_stream(1000, 100, T);
    let r = withdraw_from_stream(&mut stream, addr(9), T - 10);
    assert_eq!(r.unwrap_err(), CustomErrors::ZeroAmountToEmit);
    assert_eq!(stream.streamed_amount_so_far, 0);
}

#[test]
fn withdraw_long_after_end_is_capped() {
    let (mut stream, _) = new_stream(1000, 100, T);
    withdraw_from_stream(&mut stream, addr(9), T + 99).unwrap();
    assert_eq!(stream.streamed_amount_so_far, 990);
    let (transfers, _) = withdraw_from_stream(&mut stream, addr(9), u64::MAX).unwrap();
    assert_eq!(transfers[0].amount, 10);
    assert_eq!(stream.streamed_amount_so_far, stream.amount);
}

#[test]
fn withdraw_rounds_in_payers_favour() {
    let (mut stream, _) = new_stream(10, 3, T);
    withdraw_from_stream(&mut stream, addr(9), T + 1).unwrap();
    assert_eq!(stream.streamed_amount_so_far, 3);
    withdraw_from_stream(&mut stream, addr(9), T + 2).unwrap();
    assert_eq!(stream.streamed_amount_so_far, 6);
    withdraw_from_stream(&mut stream, addr(9), T + 3).unwrap();
    assert_eq!(stream.streamed_amount_so_far, 10);
}

#[test]
fn cancel_splits_earned_and_unearned() {
    let (stream, _) = new_stream(1000, 100, T);
    let (transfers, event) = cancel_stream(stream, addr(9), T + 10);
    assert_eq!(
        transfers,
        vec![
            Transfer { source: Party::Vault, destination: Party::Payee, amount: 100 },
            Transfer { source: Party::Vault, destination: Party::Payer, amount: 900 },
        ]
    );
    assert_eq!(
        event,
        StreamCanceled { stream: addr(9), payer: addr(1), payee: addr(2), mint: addr(3), count: 1 }
    );
}

#[test]
fn cancel_payouts_sum_to_vault_balance() {
    let (mut stream, _) = new_stream(1000, 100, T);
    withdraw_from_stream(&mut stream, addr(9), T + 30).unwrap();
    let held = stream.amount - stream.streamed_amount_so_far;
    let (transfers, _) = cancel_stream(stream, addr(9), T + 45);
    let total: u64 = transfers.iter().map(|t| t.amount).sum();
    assert_eq!(total, held);
    assert_eq!(vault_delta(&transfers), -(held as i128));
    assert_eq!(transfers[0].amount, 150);
    assert_eq!(transfers[1].amount, 550);
}

#[test]
fn cancel_before_start_returns_everything_to_payer() {
    let (stream, _) = new_stream(1000, 100, T);
    let (transfers, _) = cancel_stream(stream, addr(9), T - 1);
    assert_eq!(
        transfers,
        vec![Transfer { source: Party::Vault, destination: Party::Payer, amount: 1000 }]
    );
}

#[test]
fn cancel_after_end_pays_payee_only() {
    let (stream, _) = new_stream(1000, 100, T);
    let (transfers, _) = cancel_stream(stream, addr(9), T + 500);
    assert_eq!(
        transfers,
        vec![Transfer { source: Party::Vault, destination: Party::Payee, amount: 1000 }]
    );
}

#[test]
fn cancel_of_fully_paid_stream_moves_nothing() {
    let (mut stream, _) = new_stream(1000, 100, T);
    withdraw_from_stream(&mut stream, addr(9), T + 100).unwrap();
    let (transfers, _) = cancel_stream(stream, addr(9), T + 200);
    assert!(transfers.is_empty());
}

#[test]
fn replenish_during_term_is_refused() {
    let (mut stream, _) = new_stream(500, 10, T);
    let before = stream;
    let r = replenish_stream(&mut stream, addr(9), 300, 20, T + 5, T + 5);
    assert_eq!(r.unwrap_err(), CustomErrors::OngoingStream);
    assert_eq!(stream, before);
}

#[test]
fn replenish_at_exact_end_is_refused() {
    let (mut stream, _) = new_stream(500, 10, T);
    let r = replenish_stream(&mut stream, addr(9), 300, 20, T + 10, T + 10);
    assert_eq!(r.unwrap_err(), CustomErrors::OngoingStream);
}

#[test]
fn replenish_refunds_unclaimed_and_funds_new_term() {
    let (mut stream, _) = new_stream(500, 10, T);
    withdraw_from_stream(&mut stream, addr(9), T + 4).unwrap();
    assert_eq!(stream.streamed_amount_so_far, 200);
    let (transfers, event) =
        replenish_stream(&mut stream, addr(9), 300, 20, T + 30, T + 11).unwrap();
    assert_eq!(
        transfers,
        vec![
            Transfer { source: Party::Vault, destination: Party::Payer, amount: 300 },
            Transfer { source: Party::Payer, destination: Party::Vault, amount: 300 },
        ]
    );
    assert_eq!(stream.amount, 300);
    assert_eq!(stream.duration, 20);
    assert_eq!(stream.starting_timestamp, T + 30);
    assert_eq!(stream.streamed_amount_so_far, 0);
    assert_eq!(stream.count, 1);
    assert_eq!(
        event,
        StreamReplenished {
            stream: addr(9),
            payer: addr(1),
            payee: addr(2),
            mint: addr(3),
            amount: 300,
            starting_timestamp: T + 30,
            duration: 20,
        }
    );
}

#[test]
fn replenish_of_fully_paid_stream_only_funds() {
    let (mut stream, _) = new_stream(500, 10, T);
    withdraw_from_stream(&mut stream, addr(9), T + 10).unwrap();
    let (transfers, _) = replenish_stream(&mut stream, addr(9), 42, 5, T + 11, T + 11).unwrap();
    assert_eq!(
        transfers,
        vec![Transfer { source: Party::Payer, destination: Party::Vault, amount: 42 }]
    );
}

#[test]
fn replenish_validates_new_terms() {
    let (mut stream, _) = new_stream(500, 10, T);
    let before = stream;
    let r = replenish_stream(&mut stream, addr(9), 0, 5, T + 20, T + 20);
    assert_eq!(r.unwrap_err(), CustomErrors::ZeroAmount);
    let r = replenish_stream(&mut stream, addr(9), 5, 0, T + 20, T + 20);
    assert_eq!(r.unwrap_err(), CustomErrors::ZeroDuration);
    let r = replenish_stream(&mut stream, addr(9), 5, 5, T + 19, T + 20);
    assert_eq!(r.unwrap_err(), CustomErrors::InvalidTimestamp);
    assert_eq!(stream, before);
}

#[test]
fn vault_balance_follows_stream_through_lifecycle() {
    let mut counter = initialize().0;
    let (mut stream, transfers, _) =
        create_stream(&mut counter, addr(9), addr(1), addr(2), addr(3), 1000, T, 100, T).unwrap();
    let mut vault: i128 = vault_delta(&transfers);
    assert_eq!(vault, (stream.amount - stream.streamed_amount_so_far) as i128);
    for now in [T + 13, T + 57, T + 58, T + 250] {
        let previous = stream.streamed_amount_so_far;
        let (transfers, _) = withdraw_from_stream(&mut stream, addr(9), now).unwrap();
        vault += vault_delta(&transfers);
        assert_eq!(vault, (stream.amount - stream.streamed_amount_so_far) as i128);
        assert!(stream.streamed_amount_so_far >= previous);
        assert!(stream.streamed_amount_so_far <= stream.amount);
    }
    let (transfers, _) = replenish_stream(&mut stream, addr(9), 77, 7, T + 300, T + 300).unwrap();
    vault += vault_delta(&transfers);
    assert_eq!(vault, 77);
    assert_eq!(stream.streamed_amount_so_far, 0);
    assert_eq!(claimable_amount(&stream, T + 303), 33);
    let (transfers, _) = cancel_stream(stream, addr(9), T + 303);
    vault += vault_delta(&transfers);
    assert_eq!(vault, 0);
}

#[test]
fn error_messages() {
    assert_eq!(CustomErrors::ZeroAmount.message(), "Amount cannot be zero");
    assert_eq!(CustomErrors::OngoingStream.message(), "Stream hasn't ended yet");
}

#[test]
fn well_formedness_of_stored_records() {
    let (stream, _) = new_stream(1000, 100, T);
    assert!(stream.is_well_formed());
    assert!(!Stream { streamed_amount_so_far: 1001, ..stream }.is_well_formed());
    assert!(!Stream { amount: 0, streamed_amount_so_far: 0, ..stream }.is_well_formed());
    assert!(!Stream { duration: 0, ..stream }.is_well_formed());
}
