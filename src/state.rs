//! The records of the escrow: the stream counter, the streams, and the
//! custody transfers that operations ask the platform to perform.
use vstd::prelude::*;

verus! {

/// A 32-byte account identity (a payer, a payee, a mint or a record).
#[derive(Clone, Copy, Debug, PartialEq, Eq)]
pub struct Address {
    pub bytes: [u8; 32],
}

/// The deployment-wide counter whose value salts each new stream's identity.
#[derive(Clone, Copy, Debug, PartialEq, Eq)]
pub struct StreamCount {
    pub count: u64,
}

/// One escrow record: a vesting term of `amount` over `duration` seconds
/// from `starting_timestamp`, of which `streamed_amount_so_far` has been paid
/// to the payee.
#[derive(Clone, Copy, Debug, PartialEq, Eq)]
pub struct Stream {
    pub payer: Address,
    pub payee: Address,
    pub mint: Address,
    pub amount: u64,
    pub starting_timestamp: u64,
    pub duration: u64,
    pub streamed_amount_so_far: u64,
    pub count: u64,
}

impl Stream {
    /// A term with a positive principal and duration, never paid beyond its
    /// principal.
    pub open spec fn wf(&self) -> bool {
        &&& self.amount > 0
        &&& self.duration > 0
        &&& self.streamed_amount_so_far <= self.amount
    }

    /// Whether the record satisfies `wf`, for records read back from storage.
    pub fn is_well_formed(&self) -> (r: bool)
        ensures
            r == self.wf(),
    {
        self.amount > 0 && self.duration > 0 && self.streamed_amount_so_far <= self.amount
    }

    /// What the stream's custody vault holds for the current term.
    pub open spec fn escrowed(&self) -> int {
        self.amount - self.streamed_amount_so_far
    }
}

/// A holder of the stream's tokens.
#[derive(Clone, Copy, Debug, PartialEq, Eq)]
pub enum Party {
    Payer,
    Payee,
    /// The stream's custody vault, which signs for itself.
    Vault,
}

/// A movement of `amount` tokens of the stream's mint.
#[derive(Clone, Copy, Debug, PartialEq, Eq)]
pub struct Transfer {
    pub source: Party,
    pub destination: Party,
    pub amount: u64,
}

/// How a transfer changes the vault's balance.
pub open spec fn vault_flow(t: Transfer) -> int {
    (if t.destination == Party::Vault {
        t.amount as int
    } else {
        0
    }) - (if t.source == Party::Vault {
        t.amount as int
    } else {
        0
    })
}

/// How a sequence of transfers changes the vault's balance.
pub open spec fn vault_net(ts: Seq<Transfer>) -> int
    decreases ts.len(),
{
    if ts.len() == 0 {
        0
    } else {
        vault_net(ts.drop_last()) + vault_flow(ts.last())
    }
}

/// The sum of the amounts of a sequence of transfers.
pub open spec fn total_moved(ts: Seq<Transfer>) -> int
    decreases ts.len(),
{
    if ts.len() == 0 {
        0
    } else {
        total_moved(ts.drop_last()) + ts.last().amount
    }
}

} // verus!
