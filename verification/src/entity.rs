//! Game entity representation: the generic item vocabulary shared by
//! converter inputs/outputs, upgrade costs, and starting grants.

pub mod colony;
pub mod converter;
pub mod cube;
pub mod faction;
pub mod technology;

use crate::entity::colony::{ColonyID, ColonyType};
use crate::entity::cube::{CubeRecord, CubeType};
use crate::entity::technology::TechID;
use vstd::prelude::*;

verus! {

/// Item is used in a lot of places where we need a generic item: the
/// inputs and outputs of converters, upgrades for converters, or trades.
#[derive(Clone, Copy, Debug, PartialEq, Eq, Hash, Structural)]
pub enum Item {
    /// Some number of cubes with a given type and quantity.
    Cubes(CubeType, usize),
    /// Some number of cubes with a given type and quantity that must be
    /// traded away this trade phase.
    DonationCubes(CubeType, usize),
    /// A colony of a given type (or any type), seen as converter input.
    Colony(ColonyType),
    /// A colony with a specific ID, seen as converter output.
    SpecificColony(ColonyID),
    /// Some kind of token, only ever seen as output.
    Token(Token),
}

/// Inputs used to upgrade a converter.
#[derive(Debug, PartialEq, Eq, Hash)]
pub enum Upgrade {
    Cubes(CubeType, usize),
    ColonyAndCubes { colony_type: ColonyType, in_cubes: CubeRecord, out_cubes: CubeRecord },
    ColoniesAndCubes { colonies: Vec<ColonyType>, in_cubes: CubeRecord, out_cubes: CubeRecord },
    ConverterCard(TechID),
    ConverterCardOtherPlayer(TechID),
    KitTechShared,
    CrossColonizedPlanetBought,
}

/// Special markers handed out by particular factions.
#[derive(Clone, Copy, Debug, PartialEq, Eq, Hash, Structural)]
pub enum Token {
    /// Given to other factions to acknowledge help; creates a victory
    /// point and is returned whenever the holder invents a technology.
    Acknowledgement,
    /// Envoy token: given along with resources, makes the holder an
    /// easier stealing target and is not removed when stolen from.
    Envoy,
    /// Attached to research teams of the falling-light society; cannot be
    /// traded and converts to negative one point at the end of the game.
    Regret,
    /// Service token: halves the input cost of white converters (rounded
    /// up) and cannot be removed once the converter has been run.
    Service,
    /// Cross-colonization token placed on planets and returned when the
    /// colony is consumed.
    CrossColonization,
    /// Factory token which produces small cubes of the given type.
    Factory(CubeType),
}

/// The global supply cap of each token kind, if it has one. The owning
/// subsystem enforces the cap, not the token itself; for factories the
/// cap is per cube color.
pub open spec fn spec_quantity_limit(t: Token) -> Option<usize> {
    match t {
        Token::Envoy => Some(7usize),
        Token::CrossColonization => Some(3usize),
        Token::Acknowledgement => None,
        Token::Regret => None,
        Token::Service => Some(17usize),
        Token::Factory(_) => Some(3usize),
    }
}

/// Copies a vector of plain values element by element.
pub fn copy_vec<T: Copy>(v: &Vec<T>) -> (r: Vec<T>)
    ensures
        r@ == v@,
{
    let mut r: Vec<T> = Vec::new();
    let n = v.len();
    for i in 0..n
        invariant
            n == v@.len(),
            r@ == v@.subrange(0, i as int),
    {
        r.push(v[i]);
        proof {
            assert(v@.subrange(0, i + 1) =~= v@.subrange(0, i as int).push(v@[i as int]));
        }
    }
    proof {
        assert(v@.subrange(0, n as int) =~= v@);
    }
    r
}

/// Whether two upgrade costs are the same cost: equal values, with the
/// colony list compared by its contents.
pub open spec fn upgrade_eq(a: Upgrade, b: Upgrade) -> bool {
    match a {
        Upgrade::ColoniesAndCubes { colonies: c1, in_cubes: i1, out_cubes: o1 } => match b {
            Upgrade::ColoniesAndCubes { colonies: c2, in_cubes: i2, out_cubes: o2 } => c1@ == c2@
                && i1 == i2 && o1 == o2,
            _ => false,
        },
        _ => a == b,
    }
}

impl Clone for Upgrade {
    /// Clones the upgrade cost; the copy is the same cost.
    fn clone(&self) -> (r: Self)
        ensures
            upgrade_eq(r, *self),
    {
        match self {
            Upgrade::Cubes(t, q) => Upgrade::Cubes(*t, *q),
            Upgrade::ColonyAndCubes { colony_type, in_cubes, out_cubes } => {
                Upgrade::ColonyAndCubes {
                    colony_type: *colony_type,
                    in_cubes: *in_cubes,
                    out_cubes: *out_cubes,
                }
            },
            Upgrade::ColoniesAndCubes { colonies, in_cubes, out_cubes } => {
                Upgrade::ColoniesAndCubes {
                    colonies: copy_vec(colonies),
                    in_cubes: *in_cubes,
                    out_cubes: *out_cubes,
                }
            },
            Upgrade::ConverterCard(t) => Upgrade::ConverterCard(*t),
            Upgrade::ConverterCardOtherPlayer(t) => Upgrade::ConverterCardOtherPlayer(*t),
            Upgrade::KitTechShared => Upgrade::KitTechShared,
            Upgrade::CrossColonizedPlanetBought => Upgrade::CrossColonizedPlanetBought,
        }
    }
}

impl Token {
    /// Whether the token is intended to be limited to a certain quantity
    /// and, if so, how many are allowed to exist at once.
    pub fn quantity_limited(&self) -> (r: Option<usize>)
        ensures
            r == spec_quantity_limit(*self),
    {
        match self {
            Self::Envoy => Some(7),
            Self::CrossColonization => Some(3),
            Self::Acknowledgement => None,
            Self::Regret => None,
            Self::Service => Some(17),
            Self::Factory(_) => Some(3),
        }
    }
}

} // verus!
