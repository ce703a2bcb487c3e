//! The card game twenty-one between two players.
//!
//! Each player is dealt two cards and may draw more or stick. A hand above 21 loses
//! at once; once both players stick, the hand closer to 21 wins, and equal hands
//! start a new round. Cards are dealt from seeds that depend on the session, the
//! players and the round alone, so every deal can be recomputed.
//!
//! Whoever embeds the contract lets only the players and the admin through, as each
//! call needs, tells the game hub what the contract reports and keeps the state
//! between calls.

pub mod cards;
pub mod contract;
pub mod model;
pub mod types;

pub use cards::calculate_hand_value;
pub use cards::card_value;
pub use contract::TwentyOneContract;
pub use contract::TwentyOneSnapshot;
pub use model::TwentyOneState;
pub use types::Error;
pub use types::Game;
pub use types::GameView;
pub use types::HubReport;
