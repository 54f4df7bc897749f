//! Player identifiers.

use vstd::prelude::*;

verus! {

/// Transparent type for player IDs. Identifiers are never reused within
/// one game.
#[derive(Clone, Copy, Debug, PartialOrd, Ord, PartialEq, Eq, Hash, Structural)]
pub struct PlayerID(pub usize);

} // verus!
