//! The closed set of relic world artifacts, each with a fixed converter
//! baked into its identity. Relic worlds are never upgradable.

use crate::entity::colony::ColonyType;
use crate::entity::converter::Arrow;
use crate::entity::cube::CubeType;
use crate::entity::faction::alt_kit::UpgradeToken;
use crate::entity::{Item, Upgrade};
use vstd::prelude::*;

verus! {

/// The relic world artifacts.
#[derive(Clone, Copy, Debug, PartialEq, Eq, PartialOrd, Ord, Hash, Structural)]
pub enum RelicWorld {
    GiftOfTheDuruntai,
    ContextualIntegratorCache,
    AutomatedTransportNetwork,
    RelicDetector,
    LibraryOfEntelechy,
    TransmutiveDecomposer,
    NalgorianGrindstone,
    StarsRuin,
    ParadiseConverter,
    BarianTradeArmada,
    ThilsDemiring,
    TheGrandArmilla,
}

/// The fixed input list of each relic world.
pub open spec fn spec_relic_input(w: RelicWorld) -> Seq<Item> {
    match w {
        RelicWorld::TransmutiveDecomposer => seq![Item::Cubes(CubeType::Ship, 2usize)],
        RelicWorld::NalgorianGrindstone => seq![Item::Cubes(CubeType::VictoryPoint, 1usize)],
        RelicWorld::ParadiseConverter => seq![Item::Colony(ColonyType::Any)],
        RelicWorld::ThilsDemiring => seq![
            Item::Cubes(CubeType::Information, 1usize),
            Item::Cubes(CubeType::Power, 1usize),
        ],
        _ => Seq::<Item>::empty(),
    }
}

/// The fixed output list of each relic world.
pub open spec fn spec_relic_output(w: RelicWorld) -> Seq<Item> {
    match w {
        RelicWorld::AutomatedTransportNetwork => seq![Item::Cubes(CubeType::Food, 1usize)],
        RelicWorld::LibraryOfEntelechy => seq![
            Item::DonationCubes(CubeType::VictoryPoint, 1usize),
            Item::DonationCubes(CubeType::Information, 1usize),
            Item::DonationCubes(CubeType::Food, 1usize),
            Item::DonationCubes(CubeType::Culture, 1usize),
        ],
        RelicWorld::TransmutiveDecomposer => seq![
            Item::Cubes(CubeType::Ultratech, 1usize),
            Item::Cubes(CubeType::Power, 1usize),
            Item::Cubes(CubeType::Industry, 1usize),
            Item::Cubes(CubeType::Food, 1usize),
        ],
        RelicWorld::NalgorianGrindstone => seq![
            Item::Cubes(CubeType::Biotech, 1usize),
            Item::Cubes(CubeType::Information, 1usize),
            Item::Cubes(CubeType::Industry, 1usize),
            Item::Cubes(CubeType::Food, 1usize),
        ],
        RelicWorld::ParadiseConverter => seq![Item::Cubes(CubeType::VictoryPoint, 2usize)],
        RelicWorld::ThilsDemiring => seq![Item::Cubes(CubeType::VictoryPoint, 2usize)],
        RelicWorld::TheGrandArmilla => seq![Item::Cubes(CubeType::Ship, 4usize)],
        _ => Seq::<Item>::empty(),
    }
}

impl RelicWorld {
    /// The inputs consumed when this relic world runs.
    pub fn input(&self) -> (r: Vec<Item>)
        ensures
            r@ == spec_relic_input(*self),
    {
        match *self {
            Self::TransmutiveDecomposer => vec![Item::Cubes(CubeType::Ship, 2)],
            Self::NalgorianGrindstone => vec![Item::Cubes(CubeType::VictoryPoint, 1)],
            Self::ParadiseConverter => vec![Item::Colony(ColonyType::Any)],
            Self::ThilsDemiring => vec![
                Item::Cubes(CubeType::Information, 1),
                Item::Cubes(CubeType::Power, 1),
            ],
            _ => Vec::new(),
        }
    }

    /// The outputs produced when this relic world runs.
    pub fn output(&self) -> (r: Vec<Item>)
        ensures
            r@ == spec_relic_output(*self),
    {
        match *self {
            Self::AutomatedTransportNetwork => vec![Item::Cubes(CubeType::Food, 1)],
            Self::LibraryOfEntelechy => vec![
                Item::DonationCubes(CubeType::VictoryPoint, 1),
                Item::DonationCubes(CubeType::Information, 1),
                Item::DonationCubes(CubeType::Food, 1),
                Item::DonationCubes(CubeType::Culture, 1),
            ],
            Self::TransmutiveDecomposer => vec![
                Item::Cubes(CubeType::Ultratech, 1),
                Item::Cubes(CubeType::Power, 1),
                Item::Cubes(CubeType::Industry, 1),
                Item::Cubes(CubeType::Food, 1),
            ],
            Self::NalgorianGrindstone => vec![
                Item::Cubes(CubeType::Biotech, 1),
                Item::Cubes(CubeType::Information, 1),
                Item::Cubes(CubeType::Industry, 1),
                Item::Cubes(CubeType::Food, 1),
            ],
            Self::ParadiseConverter => vec![Item::Cubes(CubeType::VictoryPoint, 2)],
            Self::ThilsDemiring => vec![Item::Cubes(CubeType::VictoryPoint, 2)],
            Self::TheGrandArmilla => vec![Item::Cubes(CubeType::Ship, 4)],
            _ => Vec::new(),
        }
    }

    /// The phase during which this relic world may run: only the
    /// paradise converter runs in the trade phase.
    pub fn color(&self) -> (r: Arrow)
        ensures
            r == if *self == RelicWorld::ParadiseConverter {
                Arrow::Purple
            } else {
                Arrow::White
            },
    {
        match *self {
            Self::ParadiseConverter => Arrow::Purple,
            _ => Arrow::White,
        }
    }

    /// Relic worlds are never upgradable.
    pub fn upgradable(&self) -> (r: bool)
        ensures
            r == false,
    {
        false
    }

    /// Relic worlds have no upgrade options.
    pub fn upgrade_opts(&self) -> (r: Option<usize>)
        ensures
            r is None,
    {
        None
    }

    /// Relic worlds have no upgrade costs.
    pub fn upgrade_cost(&self, alt: usize) -> (r: Option<Upgrade>)
        ensures
            r is None,
    {
        None
    }

    /// Upgrading a relic world never changes it.
    pub fn upgrade(&mut self, opt: usize)
        ensures
            *final(self) == *old(self),
    {
    }

    /// Relic worlds consume no upgrade token.
    pub fn upgrade_token(&self) -> (r: Option<UpgradeToken>)
        ensures
            r is None,
    {
        None
    }
}

} // verus!
