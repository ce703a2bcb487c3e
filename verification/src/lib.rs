//! Commit-reveal wagering, settled on an admin's word or on a Groth16 proof.
//!
//! The crate holds four contracts as plain state machines. Each takes a call with
//! the values that the call brings (who calls, what time it is, what the contract's
//! balance is), changes what it holds and answers with the funds to move. Nothing
//! here reads a clock, moves funds or writes to storage: that is for whoever embeds
//! a contract, who can take a snapshot of it and restore it from one.
//!
//! - [`zk_betting`]: pools in which spectators bet under a hash commitment, reveal
//!   once betting is closed, and claim twice their stake if they picked the winner.
//! - [`zk_groth16_verifier`]: Groth16 proofs checked against installed verifying
//!   keys.
//! - [`veilstar_brawl`]: two-player matches with stakes, whose outcome can be held
//!   to proofs of the players' committed moves.
//! - [`twenty_one`]: the card game of that name.
//!
//! [`commitment`], [`fees`], [`store`] and [`primitives`] are what the contracts
//! share; [`host`] holds the calls into the Soroban host.

pub mod commitment;
pub mod fees;
pub mod host;
pub mod primitives;
pub mod store;
pub mod twenty_one;
pub mod veilstar_brawl;
pub mod zk_betting;
pub mod zk_groth16_verifier;
