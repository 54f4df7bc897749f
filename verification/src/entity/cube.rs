//! Cube types, individual cubes, and aggregate cube counts.

use crate::fraction::{norm_pair, Fraction};
use crate::state::player::PlayerID;
use vstd::prelude::*;

verus! {

/// Transparent type for cube IDs.
#[derive(Clone, Copy, Debug, PartialOrd, Ord, PartialEq, Eq, Hash, Structural)]
pub struct CubeID(pub usize);

/// Different types of cube. Some cubes exist only virtually, as inputs or
/// outputs on cards. Physical cubes that players can own can only be of
/// certain types.
#[derive(Clone, Copy, Debug, PartialEq, Eq, Hash, Structural)]
pub enum CubeType {
    /// Ships
    Ship,
    /// White cubes
    Culture,
    /// Green cubes
    Food,
    /// Brown cubes
    Industry,
    /// Small gray cubes
    UnitySmall,
    /// Any small cube (including unity)
    AnySmall,
    /// Any small cube (except unity)
    AnySmallNonUnity,
    /// Yellow cubes
    Power,
    /// Blue cubes
    Biotech,
    /// Black cubes
    Information,
    /// Large gray cubes
    UnityLarge,
    /// Any large cube (including unity)
    AnyLarge,
    /// Any large cube (except unity)
    AnyLargeNonUnity,
    /// Honey
    Ultratech,
    /// Victory points
    VictoryPoint,
}

/// The suggested raw value of a cube type, in halves: small cubes and
/// ships are worth 1 (two halves), large cubes 3/2, ultratech and victory
/// points 3.
pub open spec fn cube_value_halves(t: CubeType) -> int {
    match t {
        CubeType::Ship => 2,
        CubeType::Culture => 2,
        CubeType::Food => 2,
        CubeType::Industry => 2,
        CubeType::UnitySmall => 2,
        CubeType::AnySmall => 2,
        CubeType::AnySmallNonUnity => 2,
        CubeType::Power => 3,
        CubeType::Biotech => 3,
        CubeType::Information => 3,
        CubeType::UnityLarge => 3,
        CubeType::AnyLarge => 3,
        CubeType::AnyLargeNonUnity => 3,
        CubeType::Ultratech => 6,
        CubeType::VictoryPoint => 6,
    }
}

/// Whether a cube type is a wild "any of" category that can only appear
/// on cards, never as a physical cube.
pub open spec fn spec_is_virtual(t: CubeType) -> bool {
    match t {
        CubeType::AnySmall => true,
        CubeType::AnySmallNonUnity => true,
        CubeType::AnyLarge => true,
        CubeType::AnyLargeNonUnity => true,
        _ => false,
    }
}

/// Whether a physical cube of type `rhs` satisfies a converter input slot
/// of type `lhs`: equal types always do, wild categories accept their
/// members, and colored small/large slots also accept the matching wild
/// gray cube.
pub open spec fn spec_matches(lhs: CubeType, rhs: CubeType) -> bool {
    lhs == rhs || match lhs {
        CubeType::Culture => rhs == CubeType::UnitySmall,
        CubeType::Food => rhs == CubeType::UnitySmall,
        CubeType::Industry => rhs == CubeType::UnitySmall,
        CubeType::AnySmallNonUnity => rhs == CubeType::Culture || rhs == CubeType::Food
            || rhs == CubeType::Industry,
        CubeType::AnySmall => rhs == CubeType::Culture || rhs == CubeType::Food
            || rhs == CubeType::Industry || rhs == CubeType::UnitySmall,
        CubeType::Power => rhs == CubeType::UnityLarge,
        CubeType::Biotech => rhs == CubeType::UnityLarge,
        CubeType::Information => rhs == CubeType::UnityLarge,
        CubeType::AnyLargeNonUnity => rhs == CubeType::Power || rhs == CubeType::Biotech
            || rhs == CubeType::Information,
        CubeType::AnyLarge => rhs == CubeType::Power || rhs == CubeType::Biotech
            || rhs == CubeType::Information || rhs == CubeType::UnityLarge,
        _ => false,
    }
}

impl CubeType {
    /// Gets the suggested raw value of this cube type. Perceived value of
    /// cubes may change based on supply and demand.
    pub fn value(&self) -> (r: Fraction)
        ensures
            r@ == norm_pair((cube_value_halves(*self), 2)),
            r.wf(),
    {
        Fraction::new(self.halves(), 2)
    }

    /// The raw value of this cube type, counted in halves.
    pub fn halves(&self) -> (r: i64)
        ensures
            r == cube_value_halves(*self),
    {
        match *self {
            CubeType::Culture | CubeType::Food | CubeType::Industry | CubeType::Ship
            | CubeType::UnitySmall | CubeType::AnySmall | CubeType::AnySmallNonUnity => 2,
            CubeType::Power | CubeType::Biotech | CubeType::Information | CubeType::UnityLarge
            | CubeType::AnyLarge | CubeType::AnyLargeNonUnity => 3,
            CubeType::Ultratech | CubeType::VictoryPoint => 6,
        }
    }

    /// Checks if a cube type is a 'virtual cube'. Virtual cubes can only
    /// exist as inputs or outputs of converters, and should never be
    /// instantiated.
    pub fn is_virtual(&self) -> (r: bool)
        ensures
            r == spec_is_virtual(*self),
    {
        match *self {
            CubeType::AnySmall | CubeType::AnySmallNonUnity | CubeType::AnyLarge
            | CubeType::AnyLargeNonUnity => true,
            _ => false,
        }
    }

    /// Checks if `rhs` is a valid cube if `self` is the input of a
    /// converter.
    pub fn matches(self, rhs: Self) -> (r: bool)
        ensures
            r == spec_matches(self, rhs),
    {
        if self == rhs {
            true
        } else {
            match self {
                CubeType::Culture | CubeType::Food | CubeType::Industry => {
                    rhs == CubeType::UnitySmall
                }
                CubeType::AnySmallNonUnity => {
                    rhs == CubeType::Culture || rhs == CubeType::Food || rhs == CubeType::Industry
                }
                CubeType::AnySmall => {
                    rhs == CubeType::Culture || rhs == CubeType::Food || rhs == CubeType::Industry
                        || rhs == CubeType::UnitySmall
                }
                CubeType::Power | CubeType::Biotech | CubeType::Information => {
                    rhs == CubeType::UnityLarge
                }
                CubeType::AnyLargeNonUnity => {
                    rhs == CubeType::Power || rhs == CubeType::Biotech
                        || rhs == CubeType::Information
                }
                CubeType::AnyLarge => {
                    rhs == CubeType::Power || rhs == CubeType::Biotech
                        || rhs == CubeType::Information || rhs == CubeType::UnityLarge
                }
                _ => false,
            }
        }
    }
}

/// Represents an individual cube. Cube identity is tracked separately (by
/// `CubeID` keys in the game state) so cubes can be traced through the
/// whole economy.
#[derive(Clone, Copy, Debug, PartialEq, Eq, Hash, Structural)]
pub struct Cube {
    /// What type of cube this cube is.
    pub typ: CubeType,
    /// Whether this cube was originally a donation, and who produced it.
    pub donation: Option<PlayerID>,
}

impl Cube {
    /// Creates a new cube of a given type.
    pub fn new(typ: CubeType, donation: Option<PlayerID>) -> (r: Self)
        ensures
            r == (Cube { typ, donation }),
    {
        Cube { typ, donation }
    }

    /// The raw value of this cube.
    pub fn value(&self) -> (r: Fraction)
        ensures
            r@ == norm_pair((cube_value_halves(self.typ), 2)),
            r.wf(),
    {
        self.typ.value()
    }
}

/// Bound on the magnitude of each slot of a `CubeRecord`, far above any
/// reachable cube count but small enough that slot arithmetic and
/// valuation sums cannot overflow 64-bit integers.
pub const MAX_COUNT: i64 = 0x100_0000_0000;

/// The nonnegative part of an integer.
pub open spec fn max0(x: int) -> int {
    if x >= 0 {
        x
    } else {
        0
    }
}

/// A record of some number of cubes of each concrete type. Slots may be
/// negative when the record describes a net change (e.g. a trade delta).
/// Wild/virtual types are views computed as sums over concrete slots,
/// never stored directly.
#[derive(Clone, Copy, Debug, PartialEq, Eq, Hash, Structural)]
pub struct CubeRecord {
    pub food: i64,
    pub culture: i64,
    pub industry: i64,
    pub small_wild: i64,
    pub biotech: i64,
    pub power: i64,
    pub information: i64,
    pub large_wild: i64,
    pub ultratech: i64,
    pub ships: i64,
    pub points: i64,
}

/// A record with no cubes at all.
pub open spec fn empty_record() -> CubeRecord {
    CubeRecord {
        food: 0,
        culture: 0,
        industry: 0,
        small_wild: 0,
        biotech: 0,
        power: 0,
        information: 0,
        large_wild: 0,
        ultratech: 0,
        ships: 0,
        points: 0,
    }
}

/// Every slot of the record is within `MAX_COUNT` in magnitude.
pub open spec fn record_bounded(r: CubeRecord) -> bool {
    &&& -MAX_COUNT <= r.food <= MAX_COUNT
    &&& -MAX_COUNT <= r.culture <= MAX_COUNT
    &&& -MAX_COUNT <= r.industry <= MAX_COUNT
    &&& -MAX_COUNT <= r.small_wild <= MAX_COUNT
    &&& -MAX_COUNT <= r.biotech <= MAX_COUNT
    &&& -MAX_COUNT <= r.power <= MAX_COUNT
    &&& -MAX_COUNT <= r.information <= MAX_COUNT
    &&& -MAX_COUNT <= r.large_wild <= MAX_COUNT
    &&& -MAX_COUNT <= r.ultratech <= MAX_COUNT
    &&& -MAX_COUNT <= r.ships <= MAX_COUNT
    &&& -MAX_COUNT <= r.points <= MAX_COUNT
}

/// No slot of the record is negative.
pub open spec fn record_nonnegative(r: CubeRecord) -> bool {
    &&& r.food >= 0
    &&& r.culture >= 0
    &&& r.industry >= 0
    &&& r.small_wild >= 0
    &&& r.biotech >= 0
    &&& r.power >= 0
    &&& r.information >= 0
    &&& r.large_wild >= 0
    &&& r.ultratech >= 0
    &&& r.ships >= 0
    &&& r.points >= 0
}

/// The number of cubes counted by a record for a given type; the wild
/// "any of" categories aggregate their member slots.
pub open spec fn count_of(r: CubeRecord, t: CubeType) -> int {
    match t {
        CubeType::Ship => r.ships as int,
        CubeType::Food => r.food as int,
        CubeType::Culture => r.culture as int,
        CubeType::Industry => r.industry as int,
        CubeType::UnitySmall => r.small_wild as int,
        CubeType::AnySmall => r.food + r.culture + r.industry + r.small_wild,
        CubeType::AnySmallNonUnity => r.food + r.culture + r.industry,
        CubeType::Power => r.power as int,
        CubeType::Information => r.information as int,
        CubeType::Biotech => r.biotech as int,
        CubeType::UnityLarge => r.large_wild as int,
        CubeType::AnyLarge => r.power + r.information + r.biotech + r.large_wild,
        CubeType::AnyLargeNonUnity => r.power + r.information + r.biotech,
        CubeType::Ultratech => r.ultratech as int,
        CubeType::VictoryPoint => r.points as int,
    }
}

/// The raw value of all cubes in a record, counted in halves.
pub open spec fn record_value_halves(r: CubeRecord) -> int {
    2 * (r.food + r.culture + r.industry + r.small_wild + r.ships) + 3 * (r.biotech + r.power
        + r.information + r.large_wild) + 6 * (r.ultratech + r.points)
}

/// The victory-point-equivalent value of all cubes in a record, counted
/// in twelfths: small cubes and ships convert at 1/6, large cubes at 1/4,
/// ultratech at 1/2 and points at face value.
pub open spec fn record_vp_twelfths(r: CubeRecord) -> int {
    2 * (r.food + r.culture + r.industry + r.small_wild + r.ships) + 3 * (r.biotech + r.power
        + r.information + r.large_wild) + 6 * r.ultratech + 12 * r.points
}

/// How many cubes of a given type a sequence of cubes contains.
pub open spec fn type_count(s: Seq<Cube>, t: CubeType) -> int
    decreases s.len(),
{
    if s.len() == 0 {
        0
    } else {
        type_count(s.drop_last(), t) + if s.last().typ == t {
            1int
        } else {
            0int
        }
    }
}

/// A type's count over a sequence lies between 0 and the sequence length.
pub proof fn lemma_type_count_bounds(s: Seq<Cube>, t: CubeType)
    ensures
        0 <= type_count(s, t) <= s.len(),
    decreases s.len(),
{
    if s.len() > 0 {
        lemma_type_count_bounds(s.drop_last(), t);
    }
}

/// Extending a prefix by one cube raises that cube's type count by one
/// and leaves the others unchanged.
pub proof fn lemma_type_count_step(s: Seq<Cube>, i: int, t: CubeType)
    requires
        0 <= i < s.len(),
    ensures
        type_count(s.subrange(0, i + 1), t) == type_count(s.subrange(0, i), t) + if s[i].typ
            == t {
            1int
        } else {
            0int
        },
{
    assert(s.subrange(0, i + 1).drop_last() =~= s.subrange(0, i));
    assert(s.subrange(0, i + 1).last() == s[i]);
}

impl Default for CubeRecord {
    /// A record with no cubes at all.
    fn default() -> (r: Self)
        ensures
            r == empty_record(),
    {
        CubeRecord::new()
    }
}

impl CubeRecord {
    /// An all-zero record.
    pub fn new() -> (r: Self)
        ensures
            r == empty_record(),
    {
        CubeRecord {
            food: 0,
            culture: 0,
            industry: 0,
            small_wild: 0,
            biotech: 0,
            power: 0,
            information: 0,
            large_wild: 0,
            ultratech: 0,
            ships: 0,
            points: 0,
        }
    }

    /// Counts the concrete cubes in a list, one slot per physical type;
    /// virtual types are never stored and are skipped.
    pub fn from_cubes(cubes: &Vec<Cube>) -> (r: Self)
        requires
            cubes@.len() <= MAX_COUNT,
        ensures
            r.food == type_count(cubes@, CubeType::Food),
            r.culture == type_count(cubes@, CubeType::Culture),
            r.industry == type_count(cubes@, CubeType::Industry),
            r.small_wild == type_count(cubes@, CubeType::UnitySmall),
            r.biotech == type_count(cubes@, CubeType::Biotech),
            r.power == type_count(cubes@, CubeType::Power),
            r.information == type_count(cubes@, CubeType::Information),
            r.large_wild == type_count(cubes@, CubeType::UnityLarge),
            r.ultratech == type_count(cubes@, CubeType::Ultratech),
            r.ships == type_count(cubes@, CubeType::Ship),
            r.points == type_count(cubes@, CubeType::VictoryPoint),
            record_bounded(r),
            record_nonnegative(r),
    {
        let mut r = CubeRecord::new();
        let ghost s = cubes@;
        proof {
            assert(s.subrange(0, 0) =~= Seq::<Cube>::empty());
        }
        let n = cubes.len();
        for i in 0..n
            invariant
                n == s.len() <= MAX_COUNT,
                s == cubes@,
                r.food == type_count(s.subrange(0, i as int), CubeType::Food),
                r.culture == type_count(s.subrange(0, i as int), CubeType::Culture),
                r.industry == type_count(s.subrange(0, i as int), CubeType::Industry),
                r.small_wild == type_count(s.subrange(0, i as int), CubeType::UnitySmall),
                r.biotech == type_count(s.subrange(0, i as int), CubeType::Biotech),
                r.power == type_count(s.subrange(0, i as int), CubeType::Power),
                r.information == type_count(s.subrange(0, i as int), CubeType::Information),
                r.large_wild == type_count(s.subrange(0, i as int), CubeType::UnityLarge),
                r.ultratech == type_count(s.subrange(0, i as int), CubeType::Ultratech),
                r.ships == type_count(s.subrange(0, i as int), CubeType::Ship),
                r.points == type_count(s.subrange(0, i as int), CubeType::VictoryPoint),
        {
            proof {
                lemma_type_count_step(s, i as int, CubeType::Food);
                lemma_type_count_step(s, i as int, CubeType::Culture);
                lemma_type_count_step(s, i as int, CubeType::Industry);
                lemma_type_count_step(s, i as int, CubeType::UnitySmall);
                lemma_type_count_step(s, i as int, CubeType::Biotech);
                lemma_type_count_step(s, i as int, CubeType::Power);
                lemma_type_count_step(s, i as int, CubeType::Information);
                lemma_type_count_step(s, i as int, CubeType::UnityLarge);
                lemma_type_count_step(s, i as int, CubeType::Ultratech);
                lemma_type_count_step(s, i as int, CubeType::Ship);
                lemma_type_count_step(s, i as int, CubeType::VictoryPoint);
                lemma_type_count_bounds(s.subrange(0, i as int), CubeType::Food);
                lemma_type_count_bounds(s.subrange(0, i as int), CubeType::Culture);
                lemma_type_count_bounds(s.subrange(0, i as int), CubeType::Industry);
                lemma_type_count_bounds(s.subrange(0, i as int), CubeType::UnitySmall);
                lemma_type_count_bounds(s.subrange(0, i as int), CubeType::Biotech);
                lemma_type_count_bounds(s.subrange(0, i as int), CubeType::Power);
                lemma_type_count_bounds(s.subrange(0, i as int), CubeType::Information);
                lemma_type_count_bounds(s.subrange(0, i as int), CubeType::UnityLarge);
                lemma_type_count_bounds(s.subrange(0, i as int), CubeType::Ultratech);
                lemma_type_count_bounds(s.subrange(0, i as int), CubeType::Ship);
                lemma_type_count_bounds(s.subrange(0, i as int), CubeType::VictoryPoint);
            }
            match cubes[i].typ {
                CubeType::Ship => r.ships = r.ships + 1,
                CubeType::Culture => r.culture = r.culture + 1,
                CubeType::Food => r.food = r.food + 1,
                CubeType::Industry => r.industry = r.industry + 1,
                CubeType::UnitySmall => r.small_wild = r.small_wild + 1,
                CubeType::Biotech => r.biotech = r.biotech + 1,
                CubeType::Power => r.power = r.power + 1,
                CubeType::Information => r.information = r.information + 1,
                CubeType::UnityLarge => r.large_wild = r.large_wild + 1,
                CubeType::Ultratech => r.ultratech = r.ultratech + 1,
                CubeType::VictoryPoint => r.points = r.points + 1,
                _ => {},
            }
        }
        proof {
            assert(s.subrange(0, n as int) =~= s);
            lemma_type_count_bounds(s, CubeType::Food);
            lemma_type_count_bounds(s, CubeType::Culture);
            lemma_type_count_bounds(s, CubeType::Industry);
            lemma_type_count_bounds(s, CubeType::UnitySmall);
            lemma_type_count_bounds(s, CubeType::Biotech);
            lemma_type_count_bounds(s, CubeType::Power);
            lemma_type_count_bounds(s, CubeType::Information);
            lemma_type_count_bounds(s, CubeType::UnityLarge);
            lemma_type_count_bounds(s, CubeType::Ultratech);
            lemma_type_count_bounds(s, CubeType::Ship);
            lemma_type_count_bounds(s, CubeType::VictoryPoint);
        }
        r
    }

    /// Splits a record of net changes into its positive part and the
    /// magnitude of its negative part: both halves are nonnegative and
    /// the record equals the positive part minus the negative part.
    pub fn split(self) -> (r: (Self, Self))
        requires
            record_bounded(self),
        ensures
            r.0 == self.spec_pos_part(),
            r.1 == self.spec_neg_part(),
            record_nonnegative(r.0),
            record_nonnegative(r.1),
            record_bounded(r.0),
            record_bounded(r.1),
    {
        (self.gt_zero(), self.neg().gt_zero())
    }

    /// The positive half of the record: each slot clamped up to zero.
    pub open spec fn spec_pos_part(self) -> CubeRecord {
        CubeRecord {
            food: max0(self.food as int) as i64,
            culture: max0(self.culture as int) as i64,
            industry: max0(self.industry as int) as i64,
            small_wild: max0(self.small_wild as int) as i64,
            biotech: max0(self.biotech as int) as i64,
            power: max0(self.power as int) as i64,
            information: max0(self.information as int) as i64,
            large_wild: max0(self.large_wild as int) as i64,
            ultratech: max0(self.ultratech as int) as i64,
            ships: max0(self.ships as int) as i64,
            points: max0(self.points as int) as i64,
        }
    }

    /// The magnitude of the negative half of the record.
    pub open spec fn spec_neg_part(self) -> CubeRecord {
        CubeRecord {
            food: max0(-self.food as int) as i64,
            culture: max0(-self.culture as int) as i64,
            industry: max0(-self.industry as int) as i64,
            small_wild: max0(-self.small_wild as int) as i64,
            biotech: max0(-self.biotech as int) as i64,
            power: max0(-self.power as int) as i64,
            information: max0(-self.information as int) as i64,
            large_wild: max0(-self.large_wild as int) as i64,
            ultratech: max0(-self.ultratech as int) as i64,
            ships: max0(-self.ships as int) as i64,
            points: max0(-self.points as int) as i64,
        }
    }

    /// Clamps every slot up to zero.
    pub fn gt_zero(self) -> (r: Self)
        requires
            record_bounded(self),
        ensures
            r == self.spec_pos_part(),
            record_nonnegative(r),
            record_bounded(r),
    {
        CubeRecord {
            food: if self.food > 0 { self.food } else { 0 },
            culture: if self.culture > 0 { self.culture } else { 0 },
            industry: if self.industry > 0 { self.industry } else { 0 },
            small_wild: if self.small_wild > 0 { self.small_wild } else { 0 },
            biotech: if self.biotech > 0 { self.biotech } else { 0 },
            power: if self.power > 0 { self.power } else { 0 },
            information: if self.information > 0 { self.information } else { 0 },
            large_wild: if self.large_wild > 0 { self.large_wild } else { 0 },
            ultratech: if self.ultratech > 0 { self.ultratech } else { 0 },
            ships: if self.ships > 0 { self.ships } else { 0 },
            points: if self.points > 0 { self.points } else { 0 },
        }
    }

    /// Negates every slot.
    pub fn neg(self) -> (r: Self)
        requires
            record_bounded(self),
        ensures
            r.food == -self.food,
            r.culture == -self.culture,
            r.industry == -self.industry,
            r.small_wild == -self.small_wild,
            r.biotech == -self.biotech,
            r.power == -self.power,
            r.information == -self.information,
            r.large_wild == -self.large_wild,
            r.ultratech == -self.ultratech,
            r.ships == -self.ships,
            r.points == -self.points,
            record_bounded(r),
    {
        CubeRecord {
            food: -self.food,
            culture: -self.culture,
            industry: -self.industry,
            small_wild: -self.small_wild,
            biotech: -self.biotech,
            power: -self.power,
            information: -self.information,
            large_wild: -self.large_wild,
            ultratech: -self.ultratech,
            ships: -self.ships,
            points: -self.points,
        }
    }

    /// Adds two records slot by slot.
    pub fn add(self, rhs: Self) -> (r: Self)
        requires
            record_bounded(self),
            record_bounded(rhs),
        ensures
            r.food == self.food + rhs.food,
            r.culture == self.culture + rhs.culture,
            r.industry == self.industry + rhs.industry,
            r.small_wild == self.small_wild + rhs.small_wild,
            r.biotech == self.biotech + rhs.biotech,
            r.power == self.power + rhs.power,
            r.information == self.information + rhs.information,
            r.large_wild == self.large_wild + rhs.large_wild,
            r.ultratech == self.ultratech + rhs.ultratech,
            r.ships == self.ships + rhs.ships,
            r.points == self.points + rhs.points,
    {
        CubeRecord {
            food: self.food + rhs.food,
            culture: self.culture + rhs.culture,
            industry: self.industry + rhs.industry,
            small_wild: self.small_wild + rhs.small_wild,
            biotech: self.biotech + rhs.biotech,
            power: self.power + rhs.power,
            information: self.information + rhs.information,
            large_wild: self.large_wild + rhs.large_wild,
            ultratech: self.ultratech + rhs.ultratech,
            ships: self.ships + rhs.ships,
            points: self.points + rhs.points,
        }
    }

    /// The raw value of all cubes in the record.
    pub fn value(&self) -> (r: Fraction)
        requires
            record_bounded(*self),
        ensures
            r@ == norm_pair((record_value_halves(*self), 2)),
            r.wf(),
    {
        let halves = 2 * (self.food + self.culture + self.industry + self.small_wild
            + self.ships) + 3 * (self.biotech + self.power + self.information + self.large_wild)
            + 6 * (self.ultratech + self.points);
        Fraction::new(halves, 2)
    }

    /// The victory-point-equivalent value of all cubes in the record,
    /// using the fixed per-type conversion rates.
    pub fn vp_value(&self) -> (r: Fraction)
        requires
            record_bounded(*self),
        ensures
            r@ == norm_pair((record_vp_twelfths(*self), 12)),
            r.wf(),
    {
        let twelfths = 2 * (self.food + self.culture + self.industry + self.small_wild
            + self.ships) + 3 * (self.biotech + self.power + self.information + self.large_wild)
            + 6 * self.ultratech + 12 * self.points;
        Fraction::new(twelfths, 12)
    }

    /// Compares two records by their raw value, as bidding tie-breaks
    /// do; both valuations share the same half-unit scale.
    pub fn value_lt(&self, other: &CubeRecord) -> (r: bool)
        requires
            record_bounded(*self),
            record_bounded(*other),
        ensures
            r == (record_value_halves(*self) < record_value_halves(*other)),
    {
        let a = 2 * (self.food + self.culture + self.industry + self.small_wild + self.ships) + 3
            * (self.biotech + self.power + self.information + self.large_wild) + 6
            * (self.ultratech + self.points);
        let b = 2 * (other.food + other.culture + other.industry + other.small_wild
            + other.ships) + 3 * (other.biotech + other.power + other.information
            + other.large_wild) + 6 * (other.ultratech + other.points);
        a < b
    }

    /// The number of cubes of a given type in the record; the wild
    /// categories aggregate their member slots.
    pub fn count_type(&self, typ: CubeType) -> (r: i64)
        requires
            record_bounded(*self),
        ensures
            r == count_of(*self, typ),
    {
        match typ {
            CubeType::Ship => self.ships,
            CubeType::Food => self.food,
            CubeType::Culture => self.culture,
            CubeType::Industry => self.industry,
            CubeType::UnitySmall => self.small_wild,
            CubeType::AnySmall => self.food + self.culture + self.industry + self.small_wild,
            CubeType::AnySmallNonUnity => self.food + self.culture + self.industry,
            CubeType::Power => self.power,
            CubeType::Information => self.information,
            CubeType::Biotech => self.biotech,
            CubeType::UnityLarge => self.large_wild,
            CubeType::AnyLarge => self.power + self.information + self.biotech + self.large_wild,
            CubeType::AnyLargeNonUnity => self.power + self.information + self.biotech,
            CubeType::Ultratech => self.ultratech,
            CubeType::VictoryPoint => self.points,
        }
    }
}

/// Splitting a record yields a nonnegative positive part and a
/// nonnegative negative part whose difference, slot by slot, is the
/// original record: `pos + (-neg) == r`.
pub proof fn lemma_split_recomposes(r: CubeRecord)
    requires
        record_bounded(r),
    ensures
        record_nonnegative(r.spec_pos_part()),
        record_nonnegative(r.spec_neg_part()),
        r.spec_pos_part().food - r.spec_neg_part().food == r.food,
        r.spec_pos_part().culture - r.spec_neg_part().culture == r.culture,
        r.spec_pos_part().industry - r.spec_neg_part().industry == r.industry,
        r.spec_pos_part().small_wild - r.spec_neg_part().small_wild == r.small_wild,
        r.spec_pos_part().biotech - r.spec_neg_part().biotech == r.biotech,
        r.spec_pos_part().power - r.spec_neg_part().power == r.power,
        r.spec_pos_part().information - r.spec_neg_part().information == r.information,
        r.spec_pos_part().large_wild - r.spec_neg_part().large_wild == r.large_wild,
        r.spec_pos_part().ultratech - r.spec_neg_part().ultratech == r.ultratech,
        r.spec_pos_part().ships - r.spec_neg_part().ships == r.ships,
        r.spec_pos_part().points - r.spec_neg_part().points == r.points,
{
}

} // verus!
