//! The stream lifecycle: creation, withdrawal, cancellation and replenishment.
//!
//! Each operation takes the records it reads, updates them in place, and
//! returns the custody transfers to perform, in order, and the notification
//! to emit. A refused operation leaves its records untouched and asks for no
//! transfer.
use crate::errors::CustomErrors;
use crate::events::{
    AmountWithdrawnFromStream, Initialized, NewStreamCreated, StreamCanceled, StreamReplenished,
};
use crate::state::{Address, Party, Stream, StreamCount, Transfer};
use crate::vesting::{vested, vested_amount};
use vstd::prelude::*;

verus! {

/// Seconds of the term that have passed at `now`; none before it starts.
pub open spec fn elapsed(s: Stream, now: u64) -> int {
    if now >= s.starting_timestamp {
        now - s.starting_timestamp
    } else {
        0
    }
}

/// What the payee has earned of the current term at `now`.
pub open spec fn entitled(s: Stream, now: u64) -> int {
    vested(s.amount as int, s.duration as int, elapsed(s, now))
}

/// What the payee has earned at `now` and not yet been paid.
pub open spec fn claimable(s: Stream, now: u64) -> int {
    if entitled(s, now) > s.streamed_amount_so_far {
        entitled(s, now) - s.streamed_amount_so_far
    } else {
        0
    }
}

/// The stream once the payee has been paid what is claimable at `now`.
pub open spec fn after_claim(s: Stream, now: u64) -> Stream {
    Stream { streamed_amount_so_far: (s.streamed_amount_so_far + claimable(s, now)) as u64, ..s }
}

/// The first rule that the terms of a new vesting term break, if any.
pub open spec fn term_error(amount: u64, starting_timestamp: u64, duration: u64, now: u64) -> Option<
    CustomErrors,
> {
    if amount == 0 {
        Some(CustomErrors::ZeroAmount)
    } else if duration == 0 {
        Some(CustomErrors::ZeroDuration)
    } else if starting_timestamp < now {
        Some(CustomErrors::InvalidTimestamp)
    } else {
        None
    }
}

/// The record of a freshly created stream.
pub open spec fn created_stream(
    payer: Address,
    payee: Address,
    mint: Address,
    amount: u64,
    starting_timestamp: u64,
    duration: u64,
    count: u64,
) -> Stream {
    Stream {
        payer,
        payee,
        mint,
        amount,
        starting_timestamp,
        duration,
        streamed_amount_so_far: 0,
        count,
    }
}

/// The payer funds the vault with a term's principal.
pub open spec fn funding(amount: u64) -> Seq<Transfer> {
    seq![Transfer { source: Party::Payer, destination: Party::Vault, amount }]
}

/// The vault pays the payee what is claimable at `now`.
pub open spec fn withdrawal(s: Stream, now: u64) -> Seq<Transfer> {
    seq![Transfer { source: Party::Vault, destination: Party::Payee, amount: claimable(s, now) as u64 }]
}

/// The payouts of a cancellation at `now`: first the payee's earned share,
/// then the unearned rest to the payer, each only where it is not zero.
pub open spec fn cancel_payouts(s: Stream, now: u64) -> Seq<Transfer> {
    let earned = claimable(s, now);
    let unearned = s.amount - s.streamed_amount_so_far - earned;
    let to_payee = if earned > 0 {
        seq![Transfer { source: Party::Vault, destination: Party::Payee, amount: earned as u64 }]
    } else {
        Seq::empty()
    };
    let to_payer = if unearned > 0 {
        seq![Transfer { source: Party::Vault, destination: Party::Payer, amount: unearned as u64 }]
    } else {
        Seq::empty()
    };
    to_payee + to_payer
}

/// The current term lies wholly before `now`.
pub open spec fn term_has_ended(s: Stream, now: u64) -> bool {
    s.starting_timestamp + s.duration < now
}

/// Why a replenishment at `now` is refused, if it is.
pub open spec fn replenish_error(
    s: Stream,
    new_amount: u64,
    new_duration: u64,
    new_starting_timestamp: u64,
    now: u64,
) -> Option<CustomErrors> {
    if !term_has_ended(s, now) {
        Some(CustomErrors::OngoingStream)
    } else {
        term_error(new_amount, new_starting_timestamp, new_duration, now)
    }
}

/// The stream with a new term in place of the old one.
pub open spec fn renewed(
    s: Stream,
    new_amount: u64,
    new_duration: u64,
    new_starting_timestamp: u64,
) -> Stream {
    Stream {
        amount: new_amount,
        starting_timestamp: new_starting_timestamp,
        duration: new_duration,
        streamed_amount_so_far: 0,
        ..s
    }
}

/// The transfers of a replenishment: what the payee left unclaimed goes back
/// to the payer, then the payer funds the new term.
pub open spec fn replenish_transfers(s: Stream, new_amount: u64) -> Seq<Transfer> {
    let refund = if s.streamed_amount_so_far < s.amount {
        seq![
            Transfer {
                source: Party::Vault,
                destination: Party::Payer,
                amount: (s.amount - s.streamed_amount_so_far) as u64,
            },
        ]
    } else {
        Seq::empty()
    };
    refund + funding(new_amount)
}

/// The amount the payee may claim from `stream` at `now`.
pub fn claimable_amount(stream: &Stream, now: u64) -> (r: u64)
    requires
        stream.wf(),
    ensures
        r == claimable(*stream, now),
        r <= stream.amount - stream.streamed_amount_so_far,
{
    let elapsed: u64 = if now >= stream.starting_timestamp {
        now - stream.starting_timestamp
    } else {
        0
    };
    let entitled = vested_amount(stream.amount, stream.duration, elapsed);
    if entitled > stream.streamed_amount_so_far {
        entitled - stream.streamed_amount_so_far
    } else {
        0
    }
}

/// Creates the stream counter, whose first value is 1.
pub fn initialize() -> (r: (StreamCount, Initialized))
    ensures
        r.0.count == 1,
        r.1.stream_count == 1,
{
    let stream_count = StreamCount { count: 1 };
    (stream_count, Initialized { stream_count: stream_count.count })
}

/// Starts a new term on a stream whose current term has ended: the payer gets
/// back what the payee left unclaimed and funds the new principal. The
/// stream's identity and counter value stay.
pub fn replenish_stream(
    stream: &mut Stream,
    stream_key: Address,
    new_amount: u64,
    new_duration: u64,
    new_starting_timestamp: u64,
    now: u64,
) -> (r: Result<(Vec<Transfer>, StreamReplenished), CustomErrors>)
    ensures
        match r {
            Err(e) => {
                &&& replenish_error(*old(stream), new_amount, new_duration, new_starting_timestamp, now)
                    == Some(e)
                &&& *final(stream) == *old(stream)
            },
            Ok((transfers, event)) => {
                &&& replenish_error(*old(stream), new_amount, new_duration, new_starting_timestamp, now)
                    is None
                &&& *final(stream) == renewed(*old(stream), new_amount, new_duration, new_starting_timestamp)
                &&& final(stream).wf()
                &&& transfers@ == replenish_transfers(*old(stream), new_amount)
                &&& event == (StreamReplenished {
                    stream: stream_key,
                    payer: old(stream).payer,
                    payee: old(stream).payee,
                    mint: old(stream).mint,
                    amount: new_amount,
                    starting_timestamp: new_starting_timestamp,
                    duration: new_duration,
                })
            },
        },
{
    let ended = now > stream.starting_timestamp && now - stream.starting_timestamp
        > stream.duration;
    if !ended {
        return Err(CustomErrors::OngoingStream);
    }
    if new_amount == 0 {
        return Err(CustomErrors::ZeroAmount);
    }
    if new_duration == 0 {
        return Err(CustomErrors::ZeroDuration);
    }
    if new_starting_timestamp < now {
        return Err(CustomErrors::InvalidTimestamp);
    }
    let mut transfers: Vec<Transfer> = Vec::new();
    if stream.streamed_amount_so_far < stream.amount {
        transfers.push(
            Transfer {
                source: Party::Vault,
                destination: Party::Payer,
                amount: stream.amount - stream.streamed_amount_so_far,
            },
        );
    }
    transfers.push(Transfer { source: Party::Payer, destination: Party::Vault, amount: new_amount });
    stream.amount = new_amount;
    stream.streamed_amount_so_far = 0;
    stream.duration = new_duration;
    stream.starting_timestamp = new_starting_timestamp;
    assert(transfers@ =~= replenish_transfers(*old(stream), new_amount));
    let event = StreamReplenished {
        stream: stream_key,
        payer: stream.payer,
        payee: stream.payee,
        mint: stream.mint,
        amount: new_amount,
        starting_timestamp: new_starting_timestamp,
        duration: new_duration,
    };
    Ok((transfers, event))
}

/// Closes a stream: the vault pays the payee what has vested and not been
/// claimed, then returns the rest to the payer, leaving nothing behind.
pub fn cancel_stream(stream: Stream, stream_key: Address, now: u64) -> (r: (
    Vec<Transfer>,
    StreamCanceled,
))
    requires
        stream.wf(),
    ensures
        r.0@ == cancel_payouts(stream, now),
        r.1 == (StreamCanceled {
            stream: stream_key,
            payer: stream.payer,
            payee: stream.payee,
            mint: stream.mint,
            count: stream.count,
        }),
{
    let earned = claimable_amount(&stream, now);
    let unearned = stream.amount - stream.streamed_amount_so_far - earned;
    let mut transfers: Vec<Transfer> = Vec::new();
    if earned > 0 {
        transfers.push(Transfer { source: Party::Vault, destination: Party::Payee, amount: earned });
    }
    if unearned > 0 {
        transfers.push(
            Transfer { source: Party::Vault, destination: Party::Payer, amount: unearned },
        );
    }
    assert(transfers@ =~= cancel_payouts(stream, now));
    let event = StreamCanceled {
        stream: stream_key,
        payer: stream.payer,
        payee: stream.payee,
        mint: stream.mint,
        count: stream.count,
    };
    (transfers, event)
}

/// Pays the payee what has vested since the last withdrawal. Refused with
/// `ZeroAmountToEmit` when that is nothing.
pub fn withdraw_from_stream(stream: &mut Stream, stream_key: Address, now: u64) -> (r: Result<
    (Vec<Transfer>, AmountWithdrawnFromStream),
    CustomErrors,
>)
    requires
        old(stream).wf(),
    ensures
        final(stream).wf(),
        match r {
            Err(e) => {
                &&& e == CustomErrors::ZeroAmountToEmit
                &&& claimable(*old(stream), now) == 0
                &&& *final(stream) == *old(stream)
            },
            Ok((transfers, event)) => {
                &&& claimable(*old(stream), now) > 0
                &&& *final(stream) == after_claim(*old(stream), now)
                &&& transfers@ == withdrawal(*old(stream), now)
                &&& event == (AmountWithdrawnFromStream {
                    stream: stream_key,
                    payer: old(stream).payer,
                    payee: old(stream).payee,
                    mint: old(stream).mint,
                    amount_withdrawn: claimable(*old(stream), now) as u64,
                    count: old(stream).count,
                })
            },
        },
{
    let amount_to_emit = claimable_amount(stream, now);
    if amount_to_emit == 0 {
        return Err(CustomErrors::ZeroAmountToEmit);
    }
    stream.streamed_amount_so_far = stream.streamed_amount_so_far + amount_to_emit;
    let mut transfers: Vec<Transfer> = Vec::new();
    transfers.push(
        Transfer { source: Party::Vault, destination: Party::Payee, amount: amount_to_emit },
    );
    assert(transfers@ =~= withdrawal(*old(stream), now));
    let event = AmountWithdrawnFromStream {
        stream: stream_key,
        payer: stream.payer,
        payee: stream.payee,
        mint: stream.mint,
        amount_withdrawn: amount_to_emit,
        count: stream.count,
    };
    Ok((transfers, event))
}

/// Creates a stream from `payer` to `payee` under the counter's current value,
/// advances the counter, and has the payer fund the vault with `amount`.
pub fn create_stream(
    stream_count: &mut StreamCount,
    stream_key: Address,
    payer: Address,
    payee: Address,
    mint: Address,
    amount: u64,
    starting_timestamp: u64,
    duration: u64,
    now: u64,
) -> (r: Result<(Stream, Vec<Transfer>, NewStreamCreated), CustomErrors>)
    requires
        old(stream_count).count < u64::MAX,
    ensures
        match r {
            Err(e) => {
                &&& term_error(amount, starting_timestamp, duration, now) == Some(e)
                &&& *final(stream_count) == *old(stream_count)
            },
            Ok((stream, transfers, event)) => {
                &&& term_error(amount, starting_timestamp, duration, now) is None
                &&& stream == created_stream(
                    payer,
                    payee,
                    mint,
                    amount,
                    starting_timestamp,
                    duration,
                    old(stream_count).count,
                )
                &&& stream.wf()
                &&& final(stream_count).count == old(stream_count).count + 1
                &&& transfers@ == funding(amount)
                &&& event == (NewStreamCreated {
                    stream: stream_key,
                    payer,
                    payee,
                    mint,
                    amount,
                    starting_timestamp,
                    duration,
                    count: old(stream_count).count,
                })
            },
        },
{
    if amount == 0 {
        return Err(CustomErrors::ZeroAmount);
    }
    if duration == 0 {
        return Err(CustomErrors::ZeroDuration);
    }
    if starting_timestamp < now {
        return Err(CustomErrors::InvalidTimestamp);
    }
    let stream = Stream {
        payer,
        payee,
        mint,
        amount,
        starting_timestamp,
        duration,
        streamed_amount_so_far: 0,
        count: stream_count.count,
    };
    stream_count.count = stream_count.count + 1;
    let mut transfers: Vec<Transfer> = Vec::new();
    transfers.push(Transfer { source: Party::Payer, destination: Party::Vault, amount });
    assert(transfers@ =~= funding(amount));
    let event = NewStreamCreated {
        stream: stream_key,
        payer: stream.payer,
        payee: stream.payee,
        mint: stream.mint,
        amount,
        starting_timestamp: stream.starting_timestamp,
        duration,
        count: stream.count,
    };
    Ok((stream, transfers, event))
}

} // verus!
