//! Properties of the lifecycle that hold across operations.
use crate::lifecycle::{
    after_claim, cancel_payouts, claimable, created_stream, elapsed, entitled, funding, renewed,
    replenish_error, replenish_transfers, term_error, withdrawal,
};
use crate::state::{total_moved, vault_flow, vault_net, Address, Party, Stream, Transfer};
use crate::vesting::lemma_linear_bounds;
use vstd::prelude::*;

verus! {

/// The vault's balance change over two runs of transfers is the sum of each.
pub proof fn lemma_vault_net_concat(a: Seq<Transfer>, b: Seq<Transfer>)
    ensures
        vault_net(a + b) == vault_net(a) + vault_net(b),
    decreases b.len(),
{
    if b.len() == 0 {
        assert(a + b =~= a);
    } else {
        assert((a + b).drop_last() =~= a + b.drop_last());
        lemma_vault_net_concat(a, b.drop_last());
    }
}

/// The amount moved by two runs of transfers is the sum of each.
pub proof fn lemma_total_moved_concat(a: Seq<Transfer>, b: Seq<Transfer>)
    ensures
        total_moved(a + b) == total_moved(a) + total_moved(b),
    decreases b.len(),
{
    if b.len() == 0 {
        assert(a + b =~= a);
    } else {
        assert((a + b).drop_last() =~= a + b.drop_last());
        lemma_total_moved_concat(a, b.drop_last());
    }
}

proof fn lemma_single_transfer(t: Transfer)
    ensures
        vault_net(seq![t]) == vault_flow(t),
        total_moved(seq![t]) == t.amount,
{
    let ts = seq![t];
    assert(ts.drop_last() =~= Seq::<Transfer>::empty());
    assert(ts.last() == t);
    assert(vault_net(ts.drop_last()) == 0);
    assert(total_moved(ts.drop_last()) == 0);
}

/// What vests is never more than the principal, and is all of it once the
/// term has fully elapsed.
proof fn lemma_entitled_bounds(s: Stream, now: u64)
    requires
        s.wf(),
    ensures
        0 <= entitled(s, now) <= s.amount,
        elapsed(s, now) >= s.duration ==> entitled(s, now) == s.amount,
{
    lemma_linear_bounds(s.amount as int, s.duration as int, elapsed(s, now));
}

/// A stream never pays out more than its principal: creation yields a
/// well-formed stream, and withdrawal and replenishment keep a well-formed
/// stream well-formed, so every reachable stream has
/// `streamed_amount_so_far <= amount`.
pub proof fn lemma_streamed_never_exceeds_amount(
    s: Stream,
    now: u64,
    payer: Address,
    payee: Address,
    mint: Address,
    amount: u64,
    starting_timestamp: u64,
    duration: u64,
    count: u64,
)
    ensures
        term_error(amount, starting_timestamp, duration, now) is None ==> created_stream(
            payer,
            payee,
            mint,
            amount,
            starting_timestamp,
            duration,
            count,
        ).wf(),
        s.wf() ==> after_claim(s, now).wf(),
        s.wf() && replenish_error(s, amount, duration, starting_timestamp, now) is None ==> renewed(
            s,
            amount,
            duration,
            starting_timestamp,
        ).wf(),
{
    if s.wf() {
        lemma_entitled_bounds(s, now);
    }
}

/// The vault holds `amount - streamed_amount_so_far` in every reachable
/// state: the funding of a new stream puts exactly that there, withdrawal and
/// replenishment move exactly the difference between the old and the new
/// value, and cancellation empties the vault.
pub proof fn lemma_vault_balance_tracks_stream(
    s: Stream,
    now: u64,
    payer: Address,
    payee: Address,
    mint: Address,
    amount: u64,
    starting_timestamp: u64,
    duration: u64,
    count: u64,
)
    ensures
        term_error(amount, starting_timestamp, duration, now) is None ==> vault_net(funding(amount))
            == created_stream(payer, payee, mint, amount, starting_timestamp, duration, count).escrowed(),
        s.wf() && claimable(s, now) > 0 ==> s.escrowed() + vault_net(withdrawal(s, now))
            == after_claim(s, now).escrowed(),
        s.wf() ==> s.escrowed() + vault_net(cancel_payouts(s, now)) == 0,
        s.wf() && replenish_error(s, amount, duration, starting_timestamp, now) is None ==> s.escrowed()
            + vault_net(replenish_transfers(s, amount)) == renewed(
            s,
            amount,
            duration,
            starting_timestamp,
        ).escrowed(),
{
    let fund = Transfer { source: Party::Payer, destination: Party::Vault, amount };
    lemma_single_transfer(fund);
    assert(funding(amount) == seq![fund]);
    if s.wf() {
        lemma_entitled_bounds(s, now);
        let c = claimable(s, now);
        let pay = Transfer { source: Party::Vault, destination: Party::Payee, amount: c as u64 };
        lemma_single_transfer(pay);
        assert(withdrawal(s, now) == seq![pay]);
        let rest = s.amount - s.streamed_amount_so_far - c;
        let back = Transfer { source: Party::Vault, destination: Party::Payer, amount: rest as u64 };
        lemma_single_transfer(back);
        let to_payee = if c > 0 {
            seq![pay]
        } else {
            Seq::empty()
        };
        let to_payer = if rest > 0 {
            seq![back]
        } else {
            Seq::empty()
        };
        assert(cancel_payouts(s, now) == to_payee + to_payer);
        lemma_vault_net_concat(to_payee, to_payer);
        let refund = Transfer {
            source: Party::Vault,
            destination: Party::Payer,
            amount: (s.amount - s.streamed_amount_so_far) as u64,
        };
        lemma_single_transfer(refund);
        let refunds = if s.streamed_amount_so_far < s.amount {
            seq![refund]
        } else {
            Seq::empty()
        };
        assert(replenish_transfers(s, amount) == refunds + funding(amount));
        lemma_vault_net_concat(refunds, funding(amount));
    }
}

/// `streamed_amount_so_far` never decreases except on replenishment:
/// withdrawal only adds to it and changes nothing else, while replenishment
/// resets it to zero together with the term's other fields.
pub proof fn lemma_streamed_monotone(
    s: Stream,
    now: u64,
    new_amount: u64,
    new_duration: u64,
    new_starting_timestamp: u64,
)
    requires
        s.wf(),
    ensures
        after_claim(s, now).streamed_amount_so_far >= s.streamed_amount_so_far,
        after_claim(s, now) == (Stream {
            streamed_amount_so_far: after_claim(s, now).streamed_amount_so_far,
            ..s
        }),
        renewed(s, new_amount, new_duration, new_starting_timestamp).streamed_amount_so_far == 0,
        renewed(s, new_amount, new_duration, new_starting_timestamp).amount == new_amount,
        renewed(s, new_amount, new_duration, new_starting_timestamp).duration == new_duration,
        renewed(s, new_amount, new_duration, new_starting_timestamp).starting_timestamp
            == new_starting_timestamp,
{
    lemma_entitled_bounds(s, now);
}

/// Withdrawing twice at the same moment: after the first withdrawal nothing
/// is claimable, so the second is refused with `ZeroAmountToEmit` and changes
/// nothing.
pub proof fn lemma_second_withdrawal_is_noop(s: Stream, now: u64)
    requires
        s.wf(),
    ensures
        claimable(after_claim(s, now), now) == 0,
        after_claim(after_claim(s, now), now) == after_claim(s, now),
{
    lemma_entitled_bounds(s, now);
    assert(entitled(after_claim(s, now), now) == entitled(s, now));
}

/// However late a withdrawal comes, it never takes the stream past its
/// principal; once the term has fully elapsed it pays exactly the rest.
pub proof fn lemma_withdrawal_capped(s: Stream, now: u64)
    requires
        s.wf(),
    ensures
        claimable(s, now) <= s.amount - s.streamed_amount_so_far,
        after_claim(s, now).streamed_amount_so_far <= s.amount,
        elapsed(s, now) >= s.duration ==> claimable(s, now) == s.amount - s.streamed_amount_so_far,
        elapsed(s, now) >= s.duration ==> after_claim(s, now).streamed_amount_so_far == s.amount,
{
    lemma_entitled_bounds(s, now);
}

/// Cancellation pays the payee what is claimable and the payer the rest, and
/// the two payouts sum to what the vault held: `amount - streamed_amount_so_far`.
pub proof fn lemma_cancel_conserves(s: Stream, now: u64)
    requires
        s.wf(),
    ensures
        total_moved(cancel_payouts(s, now)) == s.amount - s.streamed_amount_so_far,
        forall|i: int|
            0 <= i < cancel_payouts(s, now).len() ==> (#[trigger] cancel_payouts(s, now)[i]).source
                == Party::Vault,
{
    lemma_entitled_bounds(s, now);
    let c = claimable(s, now);
    let rest = s.amount - s.streamed_amount_so_far - c;
    let pay = Transfer { source: Party::Vault, destination: Party::Payee, amount: c as u64 };
    let back = Transfer { source: Party::Vault, destination: Party::Payer, amount: rest as u64 };
    lemma_single_transfer(pay);
    lemma_single_transfer(back);
    let to_payee = if c > 0 {
        seq![pay]
    } else {
        Seq::empty()
    };
    let to_payer = if rest > 0 {
        seq![back]
    } else {
        Seq::empty()
    };
    assert(cancel_payouts(s, now) == to_payee + to_payer);
    lemma_total_moved_concat(to_payee, to_payer);
}

} // verus!
