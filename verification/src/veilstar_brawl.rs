//! Two-player matches with stakes, whose outcome can be held to verified proofs.
//!
//! Players commit to their moves slot by slot (round, turn, side) and later submit
//! proofs that open those commitments; one more proof binds the winner of the
//! match. A slot keeps the commitment and the verified record that were first
//! written for it: submitting the same again is accepted and counts once. Where proofs are required, a match can be finalized only once both
//! sides have a verified slot and the finalizer's claim agrees with the bound
//! winner.
//!
//! The contract has no answer for a caller that it does not accept: whoever embeds
//! it lets only the admin and the players through, as each call needs, moves the
//! funds that the contract names, tells the game hub and keeps the state between
//! calls.

pub mod contract;
pub mod laws;
pub mod model;
pub mod types;

pub use contract::BrawlSnapshot;
pub use contract::VeilstarBrawlContract;
pub use contract::ZkVerifierContract;
pub use model::BrawlState;
pub use types::Error;
pub use types::Event;
pub use types::Match;
pub use types::MoveType;
pub use types::Payment;
pub use types::SlotKey;
pub use types::ZkMatchOutcomeRecord;
pub use types::ZkVerificationRecord;
pub use types::FEE_SWEEP_INTERVAL_SECONDS;
pub use types::MOVE_COST_STROOPS;
pub use types::RESERVE_STROOPS;
pub use types::STAKE_DEPOSIT_WINDOW_SECONDS;
pub use types::STAKE_FEE_BPS;
