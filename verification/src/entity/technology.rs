//! Technology cards, their alternate costs, and the converter prototypes
//! they grant once invented.

use crate::entity::converter::{Arrow, Converter};
use crate::entity::cube::CubeType;
use crate::entity::faction::alt_kit::UpgradeToken;
use crate::entity::{Item, Upgrade};
use vstd::prelude::*;

verus! {

/// Transparent type for referring to techs.
#[derive(Clone, Copy, Debug, PartialOrd, Ord, PartialEq, Eq, Hash, Structural)]
pub struct TechID(pub usize);

/// The static pairing table driving converter upgrades: the two
/// technologies whose ownership unlocks an upgrade option for the
/// converter granted by this technology. Only tier one and two
/// technologies (identifiers one through 21) are upgradable.
pub open spec fn spec_upgrades_with(t: TechID) -> Option<(TechID, TechID)> {
    match t.0 {
        1usize => Some((TechID(2), TechID(6))),
        2usize => Some((TechID(1), TechID(7))),
        3usize => Some((TechID(4), TechID(5))),
        4usize => Some((TechID(3), TechID(7))),
        5usize => Some((TechID(3), TechID(6))),
        6usize => Some((TechID(4), TechID(5))),
        7usize => Some((TechID(1), TechID(2))),
        8usize => Some((TechID(10), TechID(12))),
        9usize => Some((TechID(11), TechID(13))),
        10usize => Some((TechID(8), TechID(14))),
        11usize => Some((TechID(10), TechID(12))),
        12usize => Some((TechID(8), TechID(11))),
        13usize => Some((TechID(9), TechID(14))),
        14usize => Some((TechID(9), TechID(13))),
        15usize => Some((TechID(17), TechID(21))),
        16usize => Some((TechID(18), TechID(20))),
        17usize => Some((TechID(19), TechID(21))),
        18usize => Some((TechID(16), TechID(19))),
        19usize => Some((TechID(18), TechID(20))),
        20usize => Some((TechID(15), TechID(16))),
        21usize => Some((TechID(15), TechID(17))),
        _ => None,
    }
}

impl TechID {
    /// The pair of technologies whose ownership unlocks the two upgrade
    /// options of this technology's converter, if it is upgradable.
    pub fn upgrades_with(&self) -> (r: Option<(TechID, TechID)>)
        ensures
            r == spec_upgrades_with(*self),
    {
        match self.0 {
            1 => Some((TechID(2), TechID(6))),
            2 => Some((TechID(1), TechID(7))),
            3 => Some((TechID(4), TechID(5))),
            4 => Some((TechID(3), TechID(7))),
            5 => Some((TechID(3), TechID(6))),
            6 => Some((TechID(4), TechID(5))),
            7 => Some((TechID(1), TechID(2))),
            8 => Some((TechID(10), TechID(12))),
            9 => Some((TechID(11), TechID(13))),
            10 => Some((TechID(8), TechID(14))),
            11 => Some((TechID(10), TechID(12))),
            12 => Some((TechID(8), TechID(11))),
            13 => Some((TechID(9), TechID(14))),
            14 => Some((TechID(9), TechID(13))),
            15 => Some((TechID(17), TechID(21))),
            16 => Some((TechID(18), TechID(20))),
            17 => Some((TechID(19), TechID(21))),
            18 => Some((TechID(16), TechID(19))),
            19 => Some((TechID(18), TechID(20))),
            20 => Some((TechID(15), TechID(16))),
            21 => Some((TechID(15), TechID(17))),
            _ => None,
        }
    }
}

/// Alternate cost for a technology: pay `qty` cubes of type `typ`.
#[derive(Clone, Copy, Debug, PartialEq, Eq, Hash, Structural)]
pub struct TechCost {
    pub typ: CubeType,
    pub qty: usize,
}

/// Technology card. Tech cards have multiple possible costs, one and only
/// one of which must be paid to invent the technology.
#[derive(Clone, Debug, PartialEq, Eq, Hash)]
pub struct Technology {
    /// Unique ID for this technology.
    pub id: TechID,
    /// List of alternate costs; tier 1-3 techs have two choices and
    /// tier 4 techs have three.
    pub cost: Vec<TechCost>,
    /// Name of the technology.
    pub name: String,
    /// Name of the invented converter; tier 4 technologies invent no
    /// converters, so this is `None` for them.
    pub invents: Option<String>,
    /// Techs are released in tier order, tiers 1 through 4.
    pub tier: usize,
    /// The reward for inventing the technology, in addition to the
    /// sharing bonus.
    pub invent_reward: usize,
}

/// A converter without additional information, such as who owns it or
/// additional faction data.
#[derive(Clone, Debug, PartialEq, Eq)]
pub struct ConverterPrototype {
    pub id: TechID,
    pub name: String,
    pub conv: Converter,
}

impl ConverterPrototype {
    /// The inputs used to run this converter.
    pub fn input(&self) -> (r: &Vec<Item>)
        ensures
            r@ == self.conv.input@,
    {
        &self.conv.input
    }

    /// The outputs produced when this converter is run.
    pub fn output(&self) -> (r: &Vec<Item>)
        ensures
            r@ == self.conv.output@,
    {
        &self.conv.output
    }

    /// Whether this prototype's technology admits an upgrade: exactly
    /// the tier one and two technologies, whose identifiers the pairing
    /// table covers.
    pub open spec fn spec_upgradable(self) -> bool {
        1 <= self.id.0 <= 21
    }

    /// Prototypes are not upgraded in place: they aren't real converters
    /// and cannot know which faction's converter set to pull from, so
    /// this never changes the prototype.
    pub fn upgrade(&mut self, opt: usize)
        ensures
            *final(self) == *old(self),
    {
    }

    /// Checks whether the converter can be upgraded.
    pub fn upgradable(&self) -> (r: bool)
        ensures
            r == self.spec_upgradable(),
    {
        1 <= self.id.0 && self.id.0 <= 21
    }

    /// If the converter can be upgraded, how many upgrade options there
    /// are; guaranteed `Some` exactly when the converter is upgradable.
    pub fn upgrade_opts(&self) -> (r: Option<usize>)
        ensures
            r == if self.spec_upgradable() {
                Some(2usize)
            } else {
                None::<usize>
            },
    {
        if 1 <= self.id.0 && self.id.0 <= 21 {
            Some(2)
        } else {
            None
        }
    }

    /// The cost of upgrading this converter using a particular
    /// alternate: owning the corresponding paired technology card.
    pub fn upgrade_cost(&self, alt: usize) -> (r: Option<Upgrade>)
        ensures
            r == match spec_upgrades_with(self.id) {
                Some(pair) => if alt == 0 {
                    Some(Upgrade::ConverterCard(pair.0))
                } else if alt == 1 {
                    Some(Upgrade::ConverterCard(pair.1))
                } else {
                    None::<Upgrade>
                },
                None => None::<Upgrade>,
            },
    {
        if alt == 0 {
            match self.id.upgrades_with() {
                Some(t) => Some(Upgrade::ConverterCard(t.0)),
                None => None,
            }
        } else if alt == 1 {
            match self.id.upgrades_with() {
                Some(t) => Some(Upgrade::ConverterCard(t.1)),
                None => None,
            }
        } else {
            None
        }
    }

    /// Which limited-supply upgrade token is consumed to upgrade this
    /// converter: tier one and tier two converters each have their own;
    /// a converter that cannot upgrade consumes none.
    pub fn upgrade_token(&self) -> (r: Option<UpgradeToken>)
        ensures
            r == if 1 <= self.id.0 <= 7 {
                Some(UpgradeToken::TierOne)
            } else if 8 <= self.id.0 <= 14 {
                Some(UpgradeToken::TierTwo)
            } else {
                None::<UpgradeToken>
            },
    {
        if 1 <= self.id.0 && self.id.0 <= 7 {
            Some(UpgradeToken::TierOne)
        } else if 8 <= self.id.0 && self.id.0 <= 14 {
            Some(UpgradeToken::TierTwo)
        } else {
            None
        }
    }

    /// The color of the converter's arrow, used to determine when the
    /// converter can be run.
    pub fn color(&self) -> (r: Arrow)
        ensures
            r == self.conv.color,
    {
        self.conv.color
    }
}

} // verus!
