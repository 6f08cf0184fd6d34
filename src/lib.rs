//! Linear token-vesting escrow: the accounting engine behind payment streams.
//!
//! A payer locks an amount in a custody vault; it unlocks linearly to a payee
//! over a fixed duration. The operations here decide, for each request, the
//! next state of the stream record and the custody transfers to perform; the
//! surrounding platform stores the records and moves the tokens.
pub mod vesting;
pub mod errors;
pub mod events;
pub mod state;
pub mod lifecycle;
pub mod laws;
