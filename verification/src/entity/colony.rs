//! Colonies: immutable reference data with an embedded converter and an
//! optional upgrade into a sibling definition in the reference store.

use crate::entity::converter::{Arrow, Converter};
use crate::entity::copy_vec;
use crate::entity::cube::CubeType;
use crate::entity::faction::alt_kit::UpgradeToken;
use crate::entity::{Item, Upgrade};
use crate::state::GameData;
use vstd::prelude::*;

verus! {

/// Transparent type for referring to specific colonies.
#[derive(Clone, Copy, Debug, PartialOrd, Ord, PartialEq, Eq, Hash, Structural)]
pub struct ColonyID(pub usize);

/// Which biome type a colony is. Some converters or upgrades care about
/// colonies of specific biomes.
#[derive(Clone, Copy, Debug, PartialEq, Eq, Hash, Structural)]
pub enum ColonyType {
    /// Also known as 'red' planets.
    Desert,
    /// Also known as 'white' planets.
    Ice,
    /// Also known as 'green' planets.
    Jungle,
    /// Also known as 'blue' planets.
    Ocean,
    /// Any planet type.
    Any,
}

/// The fixed offset between a colony's identifier and the identifier of
/// its upgraded variant in the reference store.
pub const UPGRADED_ID_OFFSET: usize = 100;

/// Colony which produces resources. The definition is immutable
/// reference data; ownership of a colony instance is tracked in the
/// game state.
#[derive(Clone, Debug, PartialEq, Eq)]
pub struct Colony {
    /// Name of the colony, used only for display.
    pub name: String,
    /// Unique id for the colony data.
    pub id: ColonyID,
    /// Biome color of the colony.
    pub typ: ColonyType,
    /// Internal converter for the planet.
    pub conv: Converter,
    /// Cost to upgrade; `None` once the colony has been upgraded.
    pub up_cost: Option<(CubeType, usize)>,
}

impl Colony {
    /// The inputs used to run this colony's converter.
    pub fn input(&self) -> (r: &Vec<Item>)
        ensures
            r@ == self.conv.input@,
    {
        &self.conv.input
    }

    /// The outputs produced when this colony's converter runs.
    pub fn output(&self) -> (r: &Vec<Item>)
        ensures
            r@ == self.conv.output@,
    {
        &self.conv.output
    }

    /// Whether the colony still has an upgrade to pay for.
    pub open spec fn spec_upgradable(self) -> bool {
        self.up_cost is Some
    }

    /// Replaces the colony's identity and converter definition with the
    /// colony whose identifier is offset by the fixed upgrade constant,
    /// read from the reference store. A no-op if the colony is already
    /// upgraded, the option index is invalid, or the store has no such
    /// definition. The cost must already have been paid by the caller;
    /// this never touches ownership or payment.
    pub fn upgrade(&mut self, data: &GameData, opt: usize)
        requires
            data.wf(),
        ensures
            ({
                let key = (old(self).id.0 + UPGRADED_ID_OFFSET) as usize;
                if old(self).id.0 >= UPGRADED_ID_OFFSET || opt != 0 || !data.colony@.dom()
                    .contains(key) {
                    *final(self) == *old(self)
                } else {
                    let c = data.colony@[key];
                    final(self).name@ == c.name@ && final(self).id == c.id && final(self).typ
                        == c.typ && final(self).conv.color == c.conv.color
                        && final(self).conv.input@ == c.conv.input@
                        && final(self).conv.output@ == c.conv.output@
                        && final(self).up_cost == c.up_cost
                }
            }),
    {
        if self.id.0 >= UPGRADED_ID_OFFSET || opt != 0 {
            // already upgraded, or not a valid option
            return ;
        }
        match data.colony.get(self.id.0 + UPGRADED_ID_OFFSET) {
            None => {},
            Some(c) => {
                self.name = c.name.clone();
                self.id = c.id;
                self.typ = c.typ;
                self.conv = Converter {
                    color: c.conv.color,
                    input: copy_vec(&c.conv.input),
                    output: copy_vec(&c.conv.output),
                };
                self.up_cost = c.up_cost;
            },
        }
    }

    /// Checks whether the colony can be upgraded.
    pub fn upgradable(&self) -> (r: bool)
        ensures
            r == self.spec_upgradable(),
    {
        self.up_cost.is_some()
    }

    /// A colony has exactly one upgrade path while upgradable.
    pub fn upgrade_opts(&self) -> (r: Option<usize>)
        ensures
            r == if self.spec_upgradable() {
                Some(1usize)
            } else {
                None::<usize>
            },
    {
        if self.upgradable() {
            Some(1)
        } else {
            None
        }
    }

    /// The cube cost of the single upgrade path; `Some` exactly when the
    /// path index is valid for an upgradable colony.
    pub fn upgrade_cost(&self, alt: usize) -> (r: Option<Upgrade>)
        ensures
            r == if alt == 0 {
                match self.up_cost {
                    Some(c) => Some(Upgrade::Cubes(c.0, c.1)),
                    None => None::<Upgrade>,
                }
            } else {
                None::<Upgrade>
            },
    {
        if alt == 0 {
            match self.up_cost {
                Some(c) => Some(Upgrade::Cubes(c.0, c.1)),
                None => None,
            }
        } else {
            None
        }
    }

    /// Upgrading a colony consumes a colony upgrade token.
    pub fn upgrade_token(&self) -> (r: Option<UpgradeToken>)
        ensures
            r == if self.spec_upgradable() {
                Some(UpgradeToken::Colony)
            } else {
                None::<UpgradeToken>
            },
    {
        if self.upgradable() {
            Some(UpgradeToken::Colony)
        } else {
            None
        }
    }

    /// The phase during which this colony's converter may run.
    pub fn color(&self) -> (r: Arrow)
        ensures
            r == self.conv.color,
    {
        self.conv.color
    }
}

} // verus!
