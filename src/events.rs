//! The notifications that the operations emit.
use crate::state::Address;
use vstd::prelude::*;

verus! {

/// The stream counter was created.
#[derive(Clone, Copy, Debug, PartialEq, Eq)]
pub struct Initialized {
    pub stream_count: u64,
}

/// A stream was created and funded.
#[derive(Clone, Copy, Debug, PartialEq, Eq)]
pub struct NewStreamCreated {
    pub stream: Address,
    pub payer: Address,
    pub payee: Address,
    pub mint: Address,
    pub amount: u64,
    pub starting_timestamp: u64,
    pub duration: u64,
    pub count: u64,
}

/// The payee withdrew what had vested.
#[derive(Clone, Copy, Debug, PartialEq, Eq)]
pub struct AmountWithdrawnFromStream {
    pub stream: Address,
    pub payer: Address,
    pub payee: Address,
    pub mint: Address,
    pub amount_withdrawn: u64,
    pub count: u64,
}

/// The payer cancelled a stream and its vault was emptied.
#[derive(Clone, Copy, Debug, PartialEq, Eq)]
pub struct StreamCanceled {
    pub stream: Address,
    pub payer: Address,
    pub payee: Address,
    pub mint: Address,
    pub count: u64,
}

/// The payer started a new term on a finished stream.
#[derive(Clone, Copy, Debug, PartialEq, Eq)]
pub struct StreamReplenished {
    pub stream: Address,
    pub payer: Address,
    pub payee: Address,
    pub mint: Address,
    pub amount: u64,
    pub starting_timestamp: u64,
    pub duration: u64,
}

} // verus!
