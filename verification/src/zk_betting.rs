//! Spectator betting pools with hidden picks.
//!
//! A pool runs from `Open` through `Locked` to `Settled` or `Refunded`. Bettors deposit
//! under a commitment while the pool is open, reveal while it is locked, and claim
//! once it is settled. A winner gets twice the stake, whatever the pool holds.
//!
//! Every call names its caller, and the contract holds the caller to the role that
//! the call needs: the admin, or the bettor for the bettor's own bet. Whoever embeds
//! the contract vouches for the caller, moves the funds that the contract names and
//! keeps its state between calls.

pub mod checks;
pub mod contract;
pub mod laws;
pub mod model;
pub mod tallies;
pub mod types;
pub mod validity;

pub use contract::BettingSnapshot;
pub use contract::ZkBettingContract;
pub use contract::ZkVerifier;
pub use model::BettingState;
pub use types::BetCommit;
pub use types::BetPool;
pub use types::BetSide;
pub use types::Error;
pub use types::Event;
pub use types::Payment;
pub use types::PoolStatus;
pub use types::FEE_BPS;
pub use types::MIN_BET_STROOPS;
pub use types::SWEEP_INTERVAL_SECONDS;
