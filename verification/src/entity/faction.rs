//! Factions and their static traits, plus the generic starting
//! converters that faction setups are built from.

pub mod alt_caylion;
pub mod alt_kit;
pub mod base_faderan;

use crate::entity::converter::{Arrow, Converter};
use crate::entity::{Item, Upgrade};
use crate::fraction::{norm_pair, Fraction};
use vstd::prelude::*;

verus! {

/// Which faction a player is playing: nine core factions, each paired
/// with one alternate ("bifurcation") ruleset; at most one of each pair
/// may be in play per game.
#[derive(Clone, Copy, Debug, PartialEq, Eq, PartialOrd, Ord, Hash, Structural)]
pub enum FactionType {
    /// Colony bids are halved, but purchased colonies produce double.
    CaylionCore,
    /// Has interest converters runnable by anyone else.
    EniEtCore,
    /// Has a deck of relic worlds and acknowledgement tokens.
    FaderanCore,
    /// Very powerful starting economy; converters need fleet support.
    ImdrilCore,
    /// Starting converters come in pairs; plays nullspace colonies.
    KitCore,
    /// Special tile converters; may split colony bids in two.
    KjasCore,
    /// Consumes any cube of the right shape; produces wild outputs.
    UnityCore,
    /// Invented techs are not shared; licenses techs instead.
    YengiiCore,
    /// Steals from any player not marked safe by trading.
    ZethCore,
    /// Creates projects which other players can vote on.
    CaylionAlt,
    /// Creates service tokens which halve white converter inputs.
    EniEtAlt,
    /// Invents at half cost and sells teams carrying regret.
    FaderanAlt,
    /// Places factories on colonies; fixed fleet support of five.
    ImdrilAlt,
    /// Paired starting converters; creates research teams.
    KitAlt,
    /// Starting resources and outputs are donations.
    KjasAlt,
    /// Rolls dice to determine which starting converters can run.
    UnityAlt,
    /// Sells constraints forbidding one cube color to the buyer.
    YengiiAlt,
    /// Every other player starts with an undesirable converter.
    ZethAlt,
}

/// The bid tie-break value of each faction, as an exact fraction pair.
pub open spec fn spec_bid_tiebreaker(f: FactionType) -> (int, int) {
    match f {
        FactionType::KitCore => (100int, 1int),
        FactionType::KitAlt => (10int, 1int),
        FactionType::ImdrilCore => (8int, 1int),
        FactionType::KjasAlt => (15int, 2int),
        FactionType::FaderanCore => (7int, 1int),
        FactionType::YengiiAlt => (13int, 2int),
        FactionType::KjasCore => (6int, 1int),
        FactionType::ImdrilAlt => (11int, 2int),
        FactionType::YengiiCore => (5int, 1int),
        FactionType::ZethAlt => (9int, 2int),
        FactionType::UnityCore => (4int, 1int),
        FactionType::UnityAlt => (22int, 7int),
        FactionType::EniEtCore => (3int, 1int),
        FactionType::ZethCore => (2int, 1int),
        FactionType::EniEtAlt => (3int, 2int),
        FactionType::CaylionCore => (1int, 1int),
        FactionType::CaylionAlt => (0int, 1int),
        FactionType::FaderanAlt => (-1int, 1int),
    }
}

/// The number of colonies each faction can support.
pub open spec fn spec_colony_support(f: FactionType) -> usize {
    match f {
        FactionType::CaylionCore => 3usize,
        FactionType::EniEtCore => 3usize,
        FactionType::FaderanCore => 4usize,
        FactionType::ImdrilCore => 0usize,
        FactionType::KitCore => 100usize,
        FactionType::KjasCore => 6usize,
        FactionType::UnityCore => 1usize,
        FactionType::YengiiCore => 3usize,
        FactionType::ZethCore => 3usize,
        FactionType::CaylionAlt => 3usize,
        FactionType::EniEtAlt => 3usize,
        FactionType::FaderanAlt => 8usize,
        FactionType::ImdrilAlt => 0usize,
        FactionType::KitAlt => 3usize,
        FactionType::KjasAlt => 5usize,
        FactionType::UnityAlt => 3usize,
        FactionType::YengiiAlt => 3usize,
        FactionType::ZethAlt => 0usize,
    }
}

/// The difficulty rating of each faction.
pub open spec fn spec_difficulty(f: FactionType) -> usize {
    match f {
        FactionType::FaderanAlt => 7usize,
        FactionType::YengiiCore => 6usize,
        FactionType::EniEtCore => 5usize,
        FactionType::UnityCore => 5usize,
        FactionType::ImdrilAlt => 5usize,
        FactionType::KitAlt => 5usize,
        FactionType::ZethAlt => 5usize,
        FactionType::ImdrilCore => 4usize,
        FactionType::EniEtAlt => 4usize,
        FactionType::KjasAlt => 4usize,
        FactionType::YengiiAlt => 4usize,
        FactionType::FaderanCore => 3usize,
        FactionType::ZethCore => 3usize,
        FactionType::CaylionAlt => 3usize,
        FactionType::CaylionCore => 2usize,
        FactionType::KjasCore => 2usize,
        FactionType::UnityAlt => 2usize,
        FactionType::KitCore => 1usize,
    }
}

/// The table-impact rating of each faction.
pub open spec fn spec_impact(f: FactionType) -> usize {
    match f {
        FactionType::CaylionAlt => 3usize,
        FactionType::ZethCore => 2usize,
        FactionType::FaderanAlt => 2usize,
        FactionType::YengiiAlt => 2usize,
        FactionType::EniEtCore => 1usize,
        FactionType::KitAlt => 1usize,
        FactionType::ZethAlt => 1usize,
        _ => 0usize,
    }
}

/// The display name of each faction.
pub open spec fn spec_display_name(f: FactionType) -> Seq<char> {
    match f {
        FactionType::CaylionCore => "Caylion Plutocracy"@,
        FactionType::EniEtCore => "Eni Et Ascendancy"@,
        FactionType::FaderanCore => "Faderan Conclave"@,
        FactionType::ImdrilCore => "Im'dril Nomads"@,
        FactionType::KitCore => "Kt'zr'kt'rtl Adhocracy"@,
        FactionType::KjasCore => "Kjasjavikalimm Directorate"@,
        FactionType::UnityCore => "Unity"@,
        FactionType::YengiiCore => "Yengii Society"@,
        FactionType::ZethCore => "Zeth Anocracy"@,
        FactionType::CaylionAlt => "Caylion Collaborative"@,
        FactionType::EniEtAlt => "Eni Et Engineers"@,
        FactionType::FaderanAlt => "Society of Falling Light"@,
        FactionType::ImdrilAlt => "Grand Fleet"@,
        FactionType::KitAlt => "Kt'zr'kt'rtl Technophiles"@,
        FactionType::KjasAlt => "Kjasjavikalimm Independent Nations"@,
        FactionType::UnityAlt => "Deep Unity"@,
        FactionType::YengiiAlt => "Yengii Jii"@,
        FactionType::ZethAlt => "Charity Syndicate"@,
    }
}

/// The short name of each faction; a base faction and its bifurcation
/// share one.
pub open spec fn spec_short_name(f: FactionType) -> Seq<char> {
    match f {
        FactionType::CaylionCore => "Caylion"@,
        FactionType::CaylionAlt => "Caylion"@,
        FactionType::EniEtCore => "Eni Et"@,
        FactionType::EniEtAlt => "Eni Et"@,
        FactionType::FaderanCore => "Faderan"@,
        FactionType::FaderanAlt => "Faderan"@,
        FactionType::ImdrilCore => "Imdril"@,
        FactionType::ImdrilAlt => "Imdril"@,
        FactionType::KitCore => "Kit"@,
        FactionType::KitAlt => "Kit"@,
        FactionType::KjasCore => "Kjas"@,
        FactionType::KjasAlt => "Kjas"@,
        FactionType::UnityCore => "Unity"@,
        FactionType::UnityAlt => "Unity"@,
        FactionType::YengiiCore => "Yengii"@,
        FactionType::YengiiAlt => "Yengii"@,
        FactionType::ZethCore => "Zeth"@,
        FactionType::ZethAlt => "Zeth"@,
    }
}

/// The alternate ruleset paired with a base faction, and vice versa.
pub open spec fn spec_bifurcate(f: FactionType) -> FactionType {
    match f {
        FactionType::CaylionCore => FactionType::CaylionAlt,
        FactionType::EniEtCore => FactionType::EniEtAlt,
        FactionType::FaderanCore => FactionType::FaderanAlt,
        FactionType::ImdrilCore => FactionType::ImdrilAlt,
        FactionType::KitCore => FactionType::KitAlt,
        FactionType::KjasCore => FactionType::KjasAlt,
        FactionType::YengiiCore => FactionType::YengiiAlt,
        FactionType::UnityCore => FactionType::UnityAlt,
        FactionType::ZethCore => FactionType::ZethAlt,
        FactionType::CaylionAlt => FactionType::CaylionCore,
        FactionType::EniEtAlt => FactionType::EniEtCore,
        FactionType::FaderanAlt => FactionType::FaderanCore,
        FactionType::ImdrilAlt => FactionType::ImdrilCore,
        FactionType::KitAlt => FactionType::KitCore,
        FactionType::KjasAlt => FactionType::KjasCore,
        FactionType::YengiiAlt => FactionType::YengiiCore,
        FactionType::UnityAlt => FactionType::UnityCore,
        FactionType::ZethAlt => FactionType::ZethCore,
    }
}

/// The bifurcation mapping is a symmetric pairing: applying it twice
/// returns the original faction, and no faction is its own counterpart.
pub proof fn lemma_bifurcate_involution()
    ensures
        forall|f: FactionType| spec_bifurcate(#[trigger] spec_bifurcate(f)) == f,
        forall|f: FactionType| #[trigger] spec_bifurcate(f) != f,
{
}

/// The display names of the eighteen factions are pairwise distinct
/// and nonempty.
#[verifier::rlimit(100)]
pub proof fn lemma_display_names_distinct()
    ensures
        forall|f: FactionType, g: FactionType| f != g ==> spec_display_name(f)
            != spec_display_name(g),
        forall|f: FactionType| (#[trigger] spec_display_name(f)).len() > 0,
{
    reveal_strlit("Caylion Plutocracy");
    reveal_strlit("Eni Et Ascendancy");
    reveal_strlit("Faderan Conclave");
    reveal_strlit("Im'dril Nomads");
    reveal_strlit("Kt'zr'kt'rtl Adhocracy");
    reveal_strlit("Kjasjavikalimm Directorate");
    reveal_strlit("Unity");
    reveal_strlit("Yengii Society");
    reveal_strlit("Zeth Anocracy");
    reveal_strlit("Caylion Collaborative");
    reveal_strlit("Eni Et Engineers");
    reveal_strlit("Society of Falling Light");
    reveal_strlit("Grand Fleet");
    reveal_strlit("Kt'zr'kt'rtl Technophiles");
    reveal_strlit("Kjasjavikalimm Independent Nations");
    reveal_strlit("Deep Unity");
    reveal_strlit("Yengii Jii");
    reveal_strlit("Charity Syndicate");
    assert forall|f: FactionType, g: FactionType| f != g implies spec_display_name(f)
        != spec_display_name(g) by {
        // no two names share both their length and their first
        // character, and equal sequences would share both
        if spec_display_name(f) == spec_display_name(g) {
            assert(spec_display_name(f).len() == spec_display_name(g).len());
            assert(spec_display_name(f)[0] == spec_display_name(g)[0]);
            assert(false);
        }
    }
}

/// A base faction and its bifurcation share one short name; factions of
/// different pairs have different, nonempty short names.
pub proof fn lemma_short_name_shared()
    ensures
        forall|f: FactionType| spec_short_name(#[trigger] spec_bifurcate(f)) == spec_short_name(f),
        forall|f: FactionType, g: FactionType|
            g != f && g != spec_bifurcate(f) ==> spec_short_name(f) != spec_short_name(g),
        forall|f: FactionType| (#[trigger] spec_short_name(f)).len() > 0,
{
    reveal_strlit("Caylion");
    reveal_strlit("Eni Et");
    reveal_strlit("Faderan");
    reveal_strlit("Imdril");
    reveal_strlit("Kit");
    reveal_strlit("Kjas");
    reveal_strlit("Unity");
    reveal_strlit("Yengii");
    reveal_strlit("Zeth");
    assert forall|f: FactionType, g: FactionType|
        g != f && g != spec_bifurcate(f) implies spec_short_name(f) != spec_short_name(g) by {
        // no two pairs share both the length and the first character of
        // their short name, and equal sequences would share both
        if spec_short_name(f) == spec_short_name(g) {
            assert(spec_short_name(f).len() == spec_short_name(g).len());
            assert(spec_short_name(f)[0] == spec_short_name(g)[0]);
            assert(false);
        }
    }
}

impl FactionType {
    /// The fraction used to break bidding ties between factions.
    pub fn bid_tiebreaker(&self) -> (r: Fraction)
        ensures
            r@ == norm_pair(spec_bid_tiebreaker(*self)),
            r.wf(),
    {
        match *self {
            Self::KitCore => Fraction::new(100, 1),
            Self::KitAlt => Fraction::new(10, 1),
            Self::ImdrilCore => Fraction::new(8, 1),
            Self::KjasAlt => Fraction::new(15, 2),
            Self::FaderanCore => Fraction::new(7, 1),
            Self::YengiiAlt => Fraction::new(13, 2),
            Self::KjasCore => Fraction::new(6, 1),
            Self::ImdrilAlt => Fraction::new(11, 2),
            Self::YengiiCore => Fraction::new(5, 1),
            Self::ZethAlt => Fraction::new(9, 2),
            Self::UnityCore => Fraction::new(4, 1),
            Self::UnityAlt => Fraction::new(22, 7),
            Self::EniEtCore => Fraction::new(3, 1),
            Self::ZethCore => Fraction::new(2, 1),
            Self::EniEtAlt => Fraction::new(3, 2),
            Self::CaylionCore => Fraction::new(1, 1),
            Self::CaylionAlt => Fraction::new(0, 1),
            Self::FaderanAlt => Fraction::new(-1, 1),
        }
    }

    /// How many colonies this faction can support.
    pub fn colony_support(&self) -> (r: usize)
        ensures
            r == spec_colony_support(*self),
    {
        match *self {
            Self::CaylionCore => 3,
            Self::EniEtCore => 3,
            Self::FaderanCore => 4,
            Self::ImdrilCore => 0,
            Self::KitCore => 100,
            Self::KjasCore => 6,
            Self::UnityCore => 1,
            Self::YengiiCore => 3,
            Self::ZethCore => 3,
            Self::CaylionAlt => 3,
            Self::EniEtAlt => 3,
            Self::FaderanAlt => 8,
            Self::ImdrilAlt => 0,
            Self::KitAlt => 3,
            Self::KjasAlt => 5,
            Self::UnityAlt => 3,
            Self::YengiiAlt => 3,
            Self::ZethAlt => 0,
        }
    }

    /// The faction's display name.
    pub fn name(&self) -> (r: &'static str)
        ensures
            r@ == spec_display_name(*self),
    {
        match *self {
            Self::CaylionCore => "Caylion Plutocracy",
            Self::EniEtCore => "Eni Et Ascendancy",
            Self::FaderanCore => "Faderan Conclave",
            Self::ImdrilCore => "Im'dril Nomads",
            Self::KitCore => "Kt'zr'kt'rtl Adhocracy",
            Self::KjasCore => "Kjasjavikalimm Directorate",
            Self::UnityCore => "Unity",
            Self::YengiiCore => "Yengii Society",
            Self::ZethCore => "Zeth Anocracy",
            Self::CaylionAlt => "Caylion Collaborative",
            Self::EniEtAlt => "Eni Et Engineers",
            Self::FaderanAlt => "Society of Falling Light",
            Self::ImdrilAlt => "Grand Fleet",
            Self::KitAlt => "Kt'zr'kt'rtl Technophiles",
            Self::KjasAlt => "Kjasjavikalimm Independent Nations",
            Self::UnityAlt => "Deep Unity",
            Self::YengiiAlt => "Yengii Jii",
            Self::ZethAlt => "Charity Syndicate",
        }
    }

    /// The short name shared by a base faction and its bifurcation.
    pub fn short_name(&self) -> (r: &'static str)
        ensures
            r@ == spec_short_name(*self),
    {
        match *self {
            Self::CaylionCore | Self::CaylionAlt => "Caylion",
            Self::EniEtCore | Self::EniEtAlt => "Eni Et",
            Self::FaderanCore | Self::FaderanAlt => "Faderan",
            Self::ImdrilCore | Self::ImdrilAlt => "Imdril",
            Self::KitCore | Self::KitAlt => "Kit",
            Self::KjasCore | Self::KjasAlt => "Kjas",
            Self::UnityCore | Self::UnityAlt => "Unity",
            Self::YengiiCore | Self::YengiiAlt => "Yengii",
            Self::ZethCore | Self::ZethAlt => "Zeth",
        }
    }

    /// The difficulty rating of the faction.
    pub fn difficulty(&self) -> (r: usize)
        ensures
            r == spec_difficulty(*self),
    {
        match *self {
            Self::FaderanAlt => 7,
            Self::YengiiCore => 6,
            Self::EniEtCore => 5,
            Self::UnityCore => 5,
            Self::ImdrilAlt => 5,
            Self::KitAlt => 5,
            Self::ZethAlt => 5,
            Self::ImdrilCore => 4,
            Self::EniEtAlt => 4,
            Self::KjasAlt => 4,
            Self::YengiiAlt => 4,
            Self::FaderanCore => 3,
            Self::ZethCore => 3,
            Self::CaylionAlt => 3,
            Self::CaylionCore => 2,
            Self::KjasCore => 2,
            Self::UnityAlt => 2,
            Self::KitCore => 1,
        }
    }

    /// The table-impact rating of the faction.
    pub fn impact(&self) -> (r: usize)
        ensures
            r == spec_impact(*self),
    {
        match *self {
            Self::CaylionAlt => 3,
            Self::ZethCore => 2,
            Self::FaderanAlt => 2,
            Self::YengiiAlt => 2,
            Self::EniEtCore => 1,
            Self::KitAlt => 1,
            Self::ZethAlt => 1,
            _ => 0,
        }
    }

    /// The alternate ruleset paired with this faction (or the base
    /// faction, for an alternate).
    pub fn bifurcate(&self) -> (r: FactionType)
        ensures
            r == spec_bifurcate(*self),
    {
        match *self {
            Self::CaylionCore => Self::CaylionAlt,
            Self::EniEtCore => Self::EniEtAlt,
            Self::FaderanCore => Self::FaderanAlt,
            Self::ImdrilCore => Self::ImdrilAlt,
            Self::KitCore => Self::KitAlt,
            Self::KjasCore => Self::KjasAlt,
            Self::YengiiCore => Self::YengiiAlt,
            Self::UnityCore => Self::UnityAlt,
            Self::ZethCore => Self::ZethAlt,
            Self::CaylionAlt => Self::CaylionCore,
            Self::EniEtAlt => Self::EniEtCore,
            Self::FaderanAlt => Self::FaderanCore,
            Self::ImdrilAlt => Self::ImdrilCore,
            Self::KitAlt => Self::KitCore,
            Self::KjasAlt => Self::KjasCore,
            Self::YengiiAlt => Self::YengiiCore,
            Self::UnityAlt => Self::UnityCore,
            Self::ZethAlt => Self::ZethCore,
        }
    }

    /// All nine core factions.
    pub fn core_factions() -> (r: Vec<Self>)
        ensures
            r@ == seq![
                Self::CaylionCore,
                Self::EniEtCore,
                Self::FaderanCore,
                Self::ImdrilCore,
                Self::KitCore,
                Self::KjasCore,
                Self::YengiiCore,
                Self::UnityCore,
                Self::ZethCore,
            ],
    {
        let r: Vec<Self> = vec![
            Self::CaylionCore,
            Self::EniEtCore,
            Self::FaderanCore,
            Self::ImdrilCore,
            Self::KitCore,
            Self::KjasCore,
            Self::YengiiCore,
            Self::UnityCore,
            Self::ZethCore,
        ];
        r
    }

    /// All nine alternate factions.
    pub fn bifurcation() -> (r: Vec<Self>)
        ensures
            r@ == seq![
                Self::CaylionAlt,
                Self::EniEtAlt,
                Self::FaderanAlt,
                Self::ImdrilAlt,
                Self::KitAlt,
                Self::KjasAlt,
                Self::YengiiAlt,
                Self::UnityAlt,
                Self::ZethAlt,
            ],
    {
        let r: Vec<Self> = vec![
            Self::CaylionAlt,
            Self::EniEtAlt,
            Self::FaderanAlt,
            Self::ImdrilAlt,
            Self::KitAlt,
            Self::KjasAlt,
            Self::YengiiAlt,
            Self::UnityAlt,
            Self::ZethAlt,
        ];
        r
    }
}

/// The starting grant of one faction: the faction and its items.
#[derive(Clone, Debug, PartialEq, Eq)]
pub struct StartingResources(pub FactionType, pub Vec<Item>);

/// A generic starting converter: a converter definition together with
/// its alternate upgrade paths, each a cost and the converter definition
/// the upgrade turns it into. Once upgraded, no further paths remain.
#[derive(Clone, Debug, PartialEq, Eq)]
pub struct GenericStartingConverter {
    /// The current converter definition.
    pub conv: Converter,
    /// The remaining upgrade paths: a cost and the resulting definition.
    pub upgrades: Vec<(Upgrade, Converter)>,
}

impl GenericStartingConverter {
    /// The inputs used to run this converter.
    pub fn input(&self) -> (r: &Vec<Item>)
        ensures
            r@ == self.conv.input@,
    {
        &self.conv.input
    }

    /// The outputs produced when this converter is run.
    pub fn output(&self) -> (r: &Vec<Item>)
        ensures
            r@ == self.conv.output@,
    {
        &self.conv.output
    }

    /// Whether any upgrade path remains.
    pub open spec fn spec_upgradable(self) -> bool {
        self.upgrades@.len() > 0
    }

    /// Checks whether the converter can be upgraded.
    pub fn upgradable(&self) -> (r: bool)
        ensures
            r == self.spec_upgradable(),
    {
        self.upgrades.len() > 0
    }

    /// How many upgrade options there are; `Some` exactly when the
    /// converter is upgradable.
    pub fn upgrade_opts(&self) -> (r: Option<usize>)
        ensures
            r == if self.spec_upgradable() {
                Some(self.upgrades@.len() as usize)
            } else {
                None::<usize>
            },
    {
        if self.upgrades.len() > 0 {
            Some(self.upgrades.len())
        } else {
            None
        }
    }

    /// The cost of upgrading along a given path; `Some` exactly when the
    /// path index is valid.
    pub fn upgrade_cost(&self, alt: usize) -> (r: Option<Upgrade>)
        ensures
            alt < self.upgrades@.len() ==> (r matches Some(u) && crate::entity::upgrade_eq(
                u,
                self.upgrades@[alt as int].0,
            )),
            alt >= self.upgrades@.len() ==> r is None,
    {
        if alt < self.upgrades.len() {
            Some(self.upgrades[alt].0.clone())
        } else {
            None
        }
    }

    /// Upgrades the converter in place along the given path: its
    /// definition becomes the path's target and no further paths remain.
    /// A no-op if the path index is invalid. The cost must already have
    /// been paid by the caller.
    pub fn upgrade(&mut self, opt: usize)
        ensures
            opt < old(self).upgrades@.len() ==> final(self).conv == old(self).upgrades@[
                opt as int].1 && final(self).upgrades@.len() == 0,
            opt >= old(self).upgrades@.len() ==> *final(self) == *old(self),
    {
        if opt < self.upgrades.len() {
            let path = self.upgrades.remove(opt);
            self.conv = path.1;
            self.upgrades = Vec::new();
        }
    }

    /// The color of the converter's arrow.
    pub fn color(&self) -> (r: Arrow)
        ensures
            r == self.conv.color,
    {
        self.conv.color
    }
}

} // verus!
