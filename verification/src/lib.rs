//! Rules engine for a round-based economic strategy game: exact fraction
//! arithmetic for valuation, the resource and converter vocabulary, the
//! phase state machine, and record validation against the game state.

pub mod deck;
pub mod entity;
pub mod fraction;
pub mod state;

pub use deck::Deck;
pub use fraction::Fraction;
