//! Project state for the collaborative Caylion ruleset.

use vstd::prelude::*;

verus! {

/// The lifecycle of a project which other players can vote on.
#[derive(Clone, Copy, Debug, PartialOrd, Ord, PartialEq, Eq, Hash, Structural)]
pub enum ProjectState {
    /// Activated, and cards have been distributed.
    Active,
    /// Has all the necessary votes and awaits approval.
    Pending,
    /// Needs more votes before it can be activated.
    Idle,
    /// On the reverse of an available project; cannot be voted on.
    Unavailable,
}

/// Transparent type for referring to projects.
#[derive(Clone, Copy, Debug, PartialOrd, Ord, PartialEq, Eq, Hash, Structural)]
pub struct ProjectID(pub usize);

} // verus!
