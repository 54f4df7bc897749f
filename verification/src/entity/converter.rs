//! Converters and their valuation: raw value and time-discounted value
//! of the cube-bearing items a converter consumes or produces.

use crate::entity::cube::{cube_value_halves, CubeType};
use crate::entity::{Item, Upgrade};
use crate::fraction::{nabs, norm_pair, rat_mul, Fraction};
use vstd::prelude::*;

verus! {

/// Transparent type for referring to a specific converter.
#[derive(Clone, Copy, Debug, PartialEq, Eq, PartialOrd, Ord, Hash, Structural)]
pub struct ConverterID(pub usize);

/// Used for determining when a converter can be run.
#[derive(Clone, Copy, Debug, PartialEq, Eq, Structural)]
pub enum Arrow {
    /// Runs during the economy phase (e.g. colony converters).
    White,
    /// Runs during the trade phase (e.g. research teams, relic worlds).
    Purple,
    /// Stealing converter; runs during the steal phase.
    Red,
}

/// Inner converter object used to generalize whenever a card needs a
/// converter: a phase color plus input and output item lists.
#[derive(Clone, Debug, PartialEq, Eq)]
pub struct Converter {
    pub color: Arrow,
    pub input: Vec<Item>,
    pub output: Vec<Item>,
}

/// Most items a converter can carry at once; keeps valuation sums far
/// inside the 64-bit range.
pub const MAX_ITEMS: usize = 64;

/// Largest quantity a single item entry may carry for valuation.
pub const MAX_ITEM_QTY: usize = 10000;

/// The quantity carried by a cube-bearing item; other items carry none.
pub open spec fn item_qty(i: Item) -> int {
    match i {
        Item::Cubes(_, q) => q as int,
        Item::DonationCubes(_, q) => q as int,
        _ => 0,
    }
}

/// An item list small enough for exact valuation: a bounded number of
/// entries, each with a bounded quantity.
pub open spec fn items_ok(s: Seq<Item>) -> bool {
    s.len() <= MAX_ITEMS && forall|i: int| 0 <= i < s.len() ==> item_qty(#[trigger] s[i])
        <= MAX_ITEM_QTY
}

/// The raw value (in halves) contributed by one item: cube-bearing items
/// contribute their cube value times quantity, all others contribute
/// nothing.
pub open spec fn item_halves(i: Item) -> int {
    match i {
        Item::Cubes(t, q) => cube_value_halves(t) * q,
        Item::DonationCubes(t, q) => cube_value_halves(t) * q,
        _ => 0,
    }
}

/// The raw value (in halves) of a whole item list.
pub open spec fn items_halves(s: Seq<Item>) -> int
    decreases s.len(),
{
    if s.len() == 0 {
        0
    } else {
        items_halves(s.drop_last()) + item_halves(s.last())
    }
}

/// The number of ships carried by one item.
pub open spec fn item_ship_qty(i: Item) -> int {
    match i {
        Item::Cubes(CubeType::Ship, q) => q as int,
        Item::DonationCubes(CubeType::Ship, q) => q as int,
        _ => 0,
    }
}

/// The number of victory points carried by one item.
pub open spec fn item_vp_qty(i: Item) -> int {
    match i {
        Item::Cubes(CubeType::VictoryPoint, q) => q as int,
        Item::DonationCubes(CubeType::VictoryPoint, q) => q as int,
        _ => 0,
    }
}

/// The value (in halves) contributed by one item to the discounted
/// portion of an adjusted valuation: cube items other than ships and
/// victory points.
pub open spec fn item_discounted_halves(i: Item) -> int {
    match i {
        Item::Cubes(CubeType::Ship, _) => 0,
        Item::DonationCubes(CubeType::Ship, _) => 0,
        Item::Cubes(CubeType::VictoryPoint, _) => 0,
        Item::DonationCubes(CubeType::VictoryPoint, _) => 0,
        Item::Cubes(t, q) => cube_value_halves(t) * q,
        Item::DonationCubes(t, q) => cube_value_halves(t) * q,
        _ => 0,
    }
}

/// Total ships over an item list.
pub open spec fn items_ship_qty(s: Seq<Item>) -> int
    decreases s.len(),
{
    if s.len() == 0 {
        0
    } else {
        items_ship_qty(s.drop_last()) + item_ship_qty(s.last())
    }
}

/// Total victory points over an item list.
pub open spec fn items_vp_qty(s: Seq<Item>) -> int
    decreases s.len(),
{
    if s.len() == 0 {
        0
    } else {
        items_vp_qty(s.drop_last()) + item_vp_qty(s.last())
    }
}

/// Total discounted-portion halves over an item list.
pub open spec fn items_discounted_halves(s: Seq<Item>) -> int
    decreases s.len(),
{
    if s.len() == 0 {
        0
    } else {
        items_discounted_halves(s.drop_last()) + item_discounted_halves(s.last())
    }
}

/// The k-th power of a fraction, reduced at every step.
pub open spec fn frac_pow(f: (int, int), k: nat) -> (int, int)
    decreases k,
{
    if k == 0 {
        (1int, 1int)
    } else {
        norm_pair(rat_mul(frac_pow(f, (k - 1) as nat), f))
    }
}

/// The exact (unreduced) result of a time-discounted valuation with
/// `turns_left` turns remaining: with discount factor `p = rate^(turns_left - 1)`,
/// ships and victory points (the latter at six times its nominal weight)
/// enter the running sum undiscounted, every other cube contribution is
/// multiplied by `p`, and the total is divided by `p` once at the end:
/// `(ship + 6*vp + p * other) / p`.
pub open spec fn adjusted_value_pair(items: Seq<Item>, rate: (int, int), turns_left: nat) -> (
    int,
    int,
)
    recommends
        turns_left >= 1,
{
    let p = frac_pow(rate, (turns_left - 1) as nat);
    let s = items_ship_qty(items) + 6 * items_vp_qty(items);
    let h = items_discounted_halves(items);
    (2 * p.1 * s + p.0 * h, 2 * p.0)
}

/// A rate fraction small enough that its fifth power keeps every
/// valuation product inside the 64-bit range.
pub open spec fn rate_ok(p: (int, int)) -> bool {
    p.0 != 0 && nabs(p.0) <= 100 && 0 < p.1 <= 100
}

/// An item's total halves decompose into its ship, victory-point and
/// discounted contributions.
pub proof fn lemma_halves_decomposition(s: Seq<Item>)
    ensures
        items_halves(s) == 2 * items_ship_qty(s) + 6 * items_vp_qty(s) + items_discounted_halves(
            s,
        ),
    decreases s.len(),
{
    if s.len() > 0 {
        lemma_halves_decomposition(s.drop_last());
        let last = s.last();
        assert(item_halves(last) == 2 * item_ship_qty(last) + 6 * item_vp_qty(last)
            + item_discounted_halves(last)) by {
            match last {
                Item::Cubes(t, q) => {
                    assert(cube_value_halves(CubeType::Ship) == 2);
                    assert(cube_value_halves(CubeType::VictoryPoint) == 6);
                },
                Item::DonationCubes(t, q) => {
                    assert(cube_value_halves(CubeType::Ship) == 2);
                    assert(cube_value_halves(CubeType::VictoryPoint) == 6);
                },
                _ => {},
            }
        }
    }
}

/// On the last turn (`turns_left == 1`) the discount factor is one, so
/// the adjusted valuation coincides with the raw valuation, for any
/// rate. The one exception is an item list carrying victory points:
/// the adjusted valuation always weighs a victory point at six (twice
/// its nominal value of three), so such lists are left out.
pub proof fn lemma_no_discount_on_last_turn(items: Seq<Item>, rate: (int, int))
    requires
        items_vp_qty(items) == 0,
    ensures
        norm_pair(adjusted_value_pair(items, rate, 1)) == norm_pair((items_halves(items), 2)),
{
    lemma_halves_decomposition(items);
    assert(frac_pow(rate, 0) == (1int, 1int));
    assert(adjusted_value_pair(items, rate, 1) == (items_halves(items), 2int));
}

/// Bounds on the valuation sums of a bounded item list.
pub proof fn lemma_items_sums_bounds(s: Seq<Item>)
    requires
        forall|i: int| 0 <= i < s.len() ==> item_qty(#[trigger] s[i]) <= MAX_ITEM_QTY,
    ensures
        0 <= items_ship_qty(s) <= s.len() * 10000,
        0 <= items_vp_qty(s) <= s.len() * 10000,
        0 <= items_discounted_halves(s) <= s.len() * 60000,
        0 <= items_halves(s) <= s.len() * 60000,
    decreases s.len(),
{
    if s.len() > 0 {
        let t = s.drop_last();
        assert(forall|i: int| 0 <= i < t.len() ==> item_qty(#[trigger] t[i]) <= MAX_ITEM_QTY);
        lemma_items_sums_bounds(t);
        let last = s.last();
        assert(item_qty(last) <= MAX_ITEM_QTY);
        assert(0 <= item_halves(last) <= 60000 && 0 <= item_discounted_halves(last) <= 60000)
            by (nonlinear_arith)
            requires
                0 <= item_qty(last) <= 10000,
                item_halves(last) == 0 || exists|t: CubeType|
                    item_halves(last) == cube_value_halves(t) * item_qty(last)
                        && cube_value_halves(t) <= 6 && cube_value_halves(t) >= 2,
                item_discounted_halves(last) == 0 || exists|t: CubeType|
                    item_discounted_halves(last) == cube_value_halves(t) * item_qty(last)
                        && cube_value_halves(t) <= 6 && cube_value_halves(t) >= 2,
        ;
    }
}

/// The raw valuation of an item list: the sum of cube values times
/// quantities over cube-bearing items, as an exact fraction.
pub fn items_value(items: &Vec<Item>) -> (r: Fraction)
    requires
        items_ok(items@),
    ensures
        r@ == norm_pair((items_halves(items@), 2)),
        r.wf(),
{
    let ghost s = items@;
    proof {
        assert(s.subrange(0, 0) =~= Seq::<Item>::empty());
    }
    let mut halves: i64 = 0;
    let n = items.len();
    for i in 0..n
        invariant
            n == s.len() <= MAX_ITEMS,
            s == items@,
            items_ok(s),
            halves == items_halves(s.subrange(0, i as int)),
            0 <= halves <= i * 60000,
    {
        proof {
            assert(s.subrange(0, i + 1).drop_last() =~= s.subrange(0, i as int));
            assert(s.subrange(0, i + 1).last() == s[i as int]);
        }
        match items[i] {
            Item::Cubes(t, q) | Item::DonationCubes(t, q) => {
                let hv = t.halves();
                proof {
                    assert(item_qty(s[i as int]) <= MAX_ITEM_QTY);
                    assert(0 <= hv * (q as i64) <= 60000) by (nonlinear_arith)
                        requires
                            2 <= hv <= 6,
                            0 <= q <= 10000,
                    ;
                }
                halves = halves + hv * (q as i64);
            },
            _ => {},
        }
    }
    proof {
        assert(s.subrange(0, n as int) =~= s);
    }
    Fraction::new(halves, 2)
}

/// One hundred to the k-th power.
pub open spec fn pow100(k: nat) -> int
    decreases k,
{
    if k == 0 {
        1
    } else {
        100 * pow100((k - 1) as nat)
    }
}

proof fn lemma_pow100_bound(k: nat)
    requires
        k <= 5,
    ensures
        1 <= pow100(k) <= 10_000_000_000,
{
    assert(pow100(0) == 1);
    assert(pow100(1) == 100);
    assert(pow100(2) == 10_000);
    assert(pow100(3) == 1_000_000);
    assert(pow100(4) == 100_000_000);
    assert(pow100(5) == 10_000_000_000);
}

/// The time-discounted valuation of an item list: the discount factor is
/// `rate^(turns_left - 1)`; ships and victory points (at six times
/// nominal weight) are exempt from the factor; `turns_left == 1` applies
/// no discount and each additional remaining turn compounds the discount
/// once more.
pub fn items_value_adjusted(items: &Vec<Item>, interest_rate: Fraction, turns_left: usize) -> (r:
    Fraction)
    requires
        items_ok(items@),
        interest_rate.wf(),
        rate_ok(interest_rate@),
        1 <= turns_left <= 6,
    ensures
        r@ == norm_pair(adjusted_value_pair(items@, interest_rate@, turns_left as nat)),
        r.wf(),
{
    let ghost s = items@;
    // accumulate the discount factor rate^(turns_left - 1), reduced at
    // every step so its components stay within 100^k
    let mut racc = Fraction::new(1, 1);
    proof {
        crate::fraction::lemma_norm_one();
        assert(racc@ == (1int, 1int));
    }
    let steps = turns_left - 1;
    for k in 0..steps
        invariant
            steps == turns_left - 1 <= 5,
            interest_rate.wf(),
            rate_ok(interest_rate@),
            racc.wf(),
            racc@ == frac_pow(interest_rate@, k as nat),
            racc@.0 != 0,
            nabs(racc@.0) <= pow100(k as nat),
            racc@.1 <= pow100(k as nat),
    {
        proof {
            lemma_pow100_bound(k as nat);
            lemma_pow100_bound((k + 1) as nat);
            assert(nabs(racc@.0 * interest_rate@.0) == nabs(racc@.0) * nabs(interest_rate@.0)
                && nabs(racc@.1 * interest_rate@.1) == nabs(racc@.1) * nabs(interest_rate@.1))
                by (nonlinear_arith);
            assert(nabs(racc@.0) * nabs(interest_rate@.0) <= pow100(k as nat) * 100
                && nabs(racc@.1) * nabs(interest_rate@.1) <= pow100(k as nat) * 100)
                by (nonlinear_arith)
                requires
                    nabs(racc@.0) <= pow100(k as nat),
                    nabs(interest_rate@.0) <= 100,
                    nabs(racc@.1) <= pow100(k as nat),
                    nabs(interest_rate@.1) <= 100,
                    pow100(k as nat) >= 1,
            ;
            assert(pow100(k as nat) * 100 == pow100((k + 1) as nat));
            assert(racc@.0 * interest_rate@.0 != 0 && racc@.1 * interest_rate@.1 > 0)
                by (nonlinear_arith)
                requires
                    racc@.0 != 0,
                    interest_rate@.0 != 0,
                    racc@.1 > 0,
                    interest_rate@.1 > 0,
            ;
            crate::fraction::lemma_norm_wf(rat_mul(racc@, interest_rate@));
            let nm = norm_pair(rat_mul(racc@, interest_rate@));
            if nm.0 == 0 {
                assert(rat_mul(racc@, interest_rate@).0 * nm.1 == 0) by (nonlinear_arith)
                    requires
                        nm.0 == 0,
                        nm.0 * rat_mul(racc@, interest_rate@).1 == rat_mul(
                            racc@,
                            interest_rate@,
                        ).0 * nm.1,
                ;
                assert(false) by (nonlinear_arith)
                    requires
                        rat_mul(racc@, interest_rate@).0 * nm.1 == 0,
                        rat_mul(racc@, interest_rate@).0 != 0,
                        nm.1 > 0,
                ;
            }
        }
        racc = racc.mul(interest_rate);
    }
    proof {
        lemma_pow100_bound(steps as nat);
    }
    // sum the exempt (ship / victory point) and discounted contributions
    proof {
        assert(s.subrange(0, 0) =~= Seq::<Item>::empty());
    }
    let mut ship: i64 = 0;
    let mut vp: i64 = 0;
    let mut disc: i64 = 0;
    let n = items.len();
    for i in 0..n
        invariant
            n == s.len() <= MAX_ITEMS,
            s == items@,
            items_ok(s),
            ship == items_ship_qty(s.subrange(0, i as int)),
            vp == items_vp_qty(s.subrange(0, i as int)),
            disc == items_discounted_halves(s.subrange(0, i as int)),
            0 <= ship <= i * 10000,
            0 <= vp <= i * 10000,
            0 <= disc <= i * 60000,
    {
        proof {
            assert(s.subrange(0, i + 1).drop_last() =~= s.subrange(0, i as int));
            assert(s.subrange(0, i + 1).last() == s[i as int]);
            assert(item_qty(s[i as int]) <= MAX_ITEM_QTY);
        }
        match items[i] {
            Item::Cubes(t, q) | Item::DonationCubes(t, q) => {
                if t == CubeType::Ship {
                    ship = ship + (q as i64);
                } else if t == CubeType::VictoryPoint {
                    vp = vp + (q as i64);
                } else {
                    let hv = t.halves();
                    proof {
                        assert(0 <= hv * (q as i64) <= 60000) by (nonlinear_arith)
                            requires
                                2 <= hv <= 6,
                                0 <= q <= 10000,
                        ;
                    }
                    disc = disc + hv * (q as i64);
                }
            },
            _ => {},
        }
    }
    proof {
        assert(s.subrange(0, n as int) =~= s);
    }
    // total = (ship + 6*vp + p * disc/2) / p == (2*pd*(ship + 6*vp) + pn*disc) / (2*pn)
    let pn = racc.numerator();
    let pd = racc.denominator();
    let sv: i64 = ship + 6 * vp;
    proof {
        assert(-10_000_000_000 <= (pn as int) <= 10_000_000_000);
        assert(0 <= (pd as int) * (sv as int) <= 45_000_000_000_000_000) by (nonlinear_arith)
            requires
                0 < pd <= 10_000_000_000,
                0 <= sv <= 4_480_000,
        ;
        assert(-39_000_000_000_000_000 <= (pn as int) * (disc as int)
            <= 39_000_000_000_000_000) by (nonlinear_arith)
            requires
                -10_000_000_000 <= pn <= 10_000_000_000,
                0 <= disc <= 3_840_000,
        ;
        assert(2 * ((pd as int) * (sv as int)) == 2 * (pd as int) * (sv as int))
            by (nonlinear_arith);
    }
    let t1 = (pd as i128) * (sv as i128);
    let t2 = (pn as i128) * (disc as i128);
    let num = 2 * t1 + t2;
    let den = 2 * (pn as i128);
    Fraction::new(num as i64, den as i64)
}

/// Any entity that transforms items into items: a colony, a technology
/// converter prototype, a relic world, or a paired starting converter.
/// A closed tagged union keeps the set of converter kinds exhaustively
/// matchable.
#[derive(Clone, Debug)]
pub enum ConverterKind {
    Colony(crate::entity::colony::Colony),
    Prototype(crate::entity::technology::ConverterPrototype),
    Relic(crate::entity::faction::base_faderan::RelicWorld),
    Kit(crate::entity::faction::alt_kit::KitConverter),
}

impl ConverterKind {
    /// The items this converter consumes when run.
    pub open spec fn spec_input(self) -> Seq<Item> {
        match self {
            ConverterKind::Colony(c) => c.conv.input@,
            ConverterKind::Prototype(p) => p.conv.input@,
            ConverterKind::Relic(w) => crate::entity::faction::base_faderan::spec_relic_input(w),
            ConverterKind::Kit(k) => k.l_conv.conv.input@,
        }
    }

    /// The items this converter produces when run.
    pub open spec fn spec_output(self) -> Seq<Item> {
        match self {
            ConverterKind::Colony(c) => c.conv.output@,
            ConverterKind::Prototype(p) => p.conv.output@,
            ConverterKind::Relic(w) => crate::entity::faction::base_faderan::spec_relic_output(w),
            ConverterKind::Kit(k) => k.output_cache@,
        }
    }

    /// Whether the converter can be upgraded.
    pub open spec fn spec_upgradable(self) -> bool {
        match self {
            ConverterKind::Colony(c) => c.spec_upgradable(),
            ConverterKind::Prototype(p) => p.spec_upgradable(),
            ConverterKind::Relic(_) => false,
            ConverterKind::Kit(k) => k.l_conv.spec_upgradable() || k.r_conv.spec_upgradable(),
        }
    }

    /// The phase color during which the converter may run.
    pub open spec fn spec_color(self) -> Arrow {
        match self {
            ConverterKind::Colony(c) => c.conv.color,
            ConverterKind::Prototype(p) => p.conv.color,
            ConverterKind::Relic(w) => if w
                == crate::entity::faction::base_faderan::RelicWorld::ParadiseConverter {
                Arrow::Purple
            } else {
                Arrow::White
            },
            ConverterKind::Kit(_) => Arrow::White,
        }
    }

    /// Gets the inputs used to run this converter. Converters with empty
    /// inputs run for free and are always run.
    pub fn input(&self) -> (r: Vec<Item>)
        ensures
            r@ == self.spec_input(),
    {
        match self {
            ConverterKind::Colony(c) => crate::entity::copy_vec(&c.conv.input),
            ConverterKind::Prototype(p) => crate::entity::copy_vec(&p.conv.input),
            ConverterKind::Relic(w) => w.input(),
            ConverterKind::Kit(k) => crate::entity::copy_vec(&k.l_conv.conv.input),
        }
    }

    /// Gets the outputs produced when this converter is run.
    pub fn output(&self) -> (r: Vec<Item>)
        ensures
            r@ == self.spec_output(),
    {
        match self {
            ConverterKind::Colony(c) => crate::entity::copy_vec(&c.conv.output),
            ConverterKind::Prototype(p) => crate::entity::copy_vec(&p.conv.output),
            ConverterKind::Relic(w) => w.output(),
            ConverterKind::Kit(k) => crate::entity::copy_vec(&k.output_cache),
        }
    }

    /// The raw value of the cubes this converter consumes.
    pub fn input_value(&self) -> (r: Fraction)
        requires
            items_ok(self.spec_input()),
        ensures
            r@ == norm_pair((items_halves(self.spec_input()), 2)),
            r.wf(),
    {
        let items = self.input();
        items_value(&items)
    }

    /// The raw value of the cubes this converter produces.
    pub fn output_value(&self) -> (r: Fraction)
        requires
            items_ok(self.spec_output()),
        ensures
            r@ == norm_pair((items_halves(self.spec_output()), 2)),
            r.wf(),
    {
        let items = self.output();
        items_value(&items)
    }

    /// The time-discounted value of the cubes this converter consumes.
    pub fn input_value_adjusted(&self, interest_rate: Fraction, turns_left: usize) -> (r: Fraction)
        requires
            items_ok(self.spec_input()),
            interest_rate.wf(),
            rate_ok(interest_rate@),
            1 <= turns_left <= 6,
        ensures
            r@ == norm_pair(
                adjusted_value_pair(self.spec_input(), interest_rate@, turns_left as nat),
            ),
            r.wf(),
    {
        let items = self.input();
        items_value_adjusted(&items, interest_rate, turns_left)
    }

    /// The time-discounted value of the cubes this converter produces.
    pub fn output_value_adjusted(&self, interest_rate: Fraction, turns_left: usize) -> (r: Fraction)
        requires
            items_ok(self.spec_output()),
            interest_rate.wf(),
            rate_ok(interest_rate@),
            1 <= turns_left <= 6,
        ensures
            r@ == norm_pair(
                adjusted_value_pair(self.spec_output(), interest_rate@, turns_left as nat),
            ),
            r.wf(),
    {
        let items = self.output();
        items_value_adjusted(&items, interest_rate, turns_left)
    }

    /// Checks whether the converter can be run for free: only when it
    /// has no input cost.
    pub fn free(&self) -> (r: bool)
        ensures
            r == (self.spec_input().len() == 0),
    {
        match self {
            ConverterKind::Colony(c) => c.conv.input.len() == 0,
            ConverterKind::Prototype(p) => p.conv.input.len() == 0,
            ConverterKind::Relic(w) => w.input().len() == 0,
            ConverterKind::Kit(k) => k.l_conv.conv.input.len() == 0,
        }
    }

    /// Checks whether the converter can be upgraded.
    pub fn upgradable(&self) -> (r: bool)
        ensures
            r == self.spec_upgradable(),
    {
        match self {
            ConverterKind::Colony(c) => c.upgradable(),
            ConverterKind::Prototype(p) => p.upgradable(),
            ConverterKind::Relic(w) => w.upgradable(),
            ConverterKind::Kit(k) => k.upgradable(),
        }
    }

    /// If the converter can be upgraded, how many upgrade options there
    /// are; guaranteed `Some` exactly when it is upgradable.
    pub fn upgrade_opts(&self) -> (r: Option<usize>)
        ensures
            r is Some <==> self.spec_upgradable(),
            self matches ConverterKind::Colony(c) ==> r == if c.spec_upgradable() {
                Some(1usize)
            } else {
                None::<usize>
            },
            self matches ConverterKind::Prototype(p) ==> r == if p.spec_upgradable() {
                Some(2usize)
            } else {
                None::<usize>
            },
            self matches ConverterKind::Relic(_) ==> r is None,
            self matches ConverterKind::Kit(k) ==> r == if k.l_conv.spec_upgradable()
                && k.r_conv.spec_upgradable() {
                Some(4usize)
            } else if k.l_conv.spec_upgradable() || k.r_conv.spec_upgradable() {
                Some(2usize)
            } else {
                None::<usize>
            },
    {
        match self {
            ConverterKind::Colony(c) => c.upgrade_opts(),
            ConverterKind::Prototype(p) => p.upgrade_opts(),
            ConverterKind::Relic(w) => w.upgrade_opts(),
            ConverterKind::Kit(k) => k.upgrade_opts(),
        }
    }

    /// The cost of upgrading this converter using a particular option,
    /// delegated to the underlying kind.
    pub fn upgrade_cost(&self, alt: usize) -> (r: Option<Upgrade>)
        ensures
            self matches ConverterKind::Colony(c) ==> r == if alt == 0 {
                match c.up_cost {
                    Some(cost) => Some(Upgrade::Cubes(cost.0, cost.1)),
                    None => None::<Upgrade>,
                }
            } else {
                None::<Upgrade>
            },
            self matches ConverterKind::Prototype(p) ==> r == match
                crate::entity::technology::spec_upgrades_with(p.id) {
                Some(pair) => if alt == 0 {
                    Some(Upgrade::ConverterCard(pair.0))
                } else if alt == 1 {
                    Some(Upgrade::ConverterCard(pair.1))
                } else {
                    None::<Upgrade>
                },
                None => None::<Upgrade>,
            },
            self matches ConverterKind::Relic(_) ==> r is None,
            self matches ConverterKind::Kit(k) ==> ({
                let side = if k.spec_addresses_left(alt) {
                    k.l_conv
                } else {
                    k.r_conv
                };
                let idx = k.spec_side_index(alt);
                if 0 <= idx < side.upgrades@.len() {
                    r matches Some(u) && crate::entity::upgrade_eq(u, side.upgrades@[idx].0)
                } else {
                    r is None
                }
            }),
    {
        match self {
            ConverterKind::Colony(c) => c.upgrade_cost(alt),
            ConverterKind::Prototype(p) => p.upgrade_cost(alt),
            ConverterKind::Relic(w) => w.upgrade_cost(alt),
            ConverterKind::Kit(k) => k.upgrade_cost(alt),
        }
    }

    /// Modifies the converter, upgrading it in place; the cost must
    /// already have been deducted by the caller. A colony swaps in its
    /// offset sibling from the reference store, a paired converter
    /// upgrades the addressed side and recomputes its cache, and
    /// prototypes and relic worlds never change.
    pub fn upgrade(&mut self, data: &crate::state::GameData, opt: usize)
        requires
            data.wf(),
        ensures
            old(self) matches ConverterKind::Prototype(_) ==> *final(self) == *old(self),
            old(self) matches ConverterKind::Relic(_) ==> *final(self) == *old(self),
            (*old(self)) matches ConverterKind::Colony(c) ==> ((*final(self)) matches
                ConverterKind::Colony(c2) && ({
                let key = (c.id.0 + crate::entity::colony::UPGRADED_ID_OFFSET) as usize;
                if c.id.0 >= crate::entity::colony::UPGRADED_ID_OFFSET || opt != 0
                    || !data.colony@.dom().contains(key) {
                    c2 == c
                } else {
                    let t = data.colony@[key];
                    c2.name@ == t.name@ && c2.id == t.id && c2.typ == t.typ && c2.conv.color
                        == t.conv.color && c2.conv.input@ == t.conv.input@ && c2.conv.output@
                        == t.conv.output@ && c2.up_cost == t.up_cost
                }
            })),
            (*old(self)) matches ConverterKind::Kit(k) ==> ((*final(self)) matches
                ConverterKind::Kit(k2) && ({
                if k.spec_addresses_left(opt) {
                    k2.r_conv == k.r_conv && crate::entity::faction::alt_kit::gsc_upgraded(
                        k.l_conv,
                        opt as int,
                        k2.l_conv,
                    )
                } else {
                    k2.l_conv == k.l_conv && crate::entity::faction::alt_kit::gsc_upgraded(
                        k.r_conv,
                        k.spec_side_index(opt),
                        k2.r_conv,
                    )
                }
            }) && k2.output_cache@ == k2.l_conv.conv.output@ + k2.r_conv.conv.output@),
    {
        match self {
            ConverterKind::Colony(c) => c.upgrade(data, opt),
            ConverterKind::Prototype(p) => p.upgrade(opt),
            ConverterKind::Relic(w) => w.upgrade(opt),
            ConverterKind::Kit(k) => k.upgrade(opt),
        }
    }

    /// The extra outputs of exercising an upgrade, if any; no known
    /// converter kind produces outputs while upgrading.
    pub fn upgrade_outputs(&self, alt: usize) -> (r: Option<Vec<Item>>)
        ensures
            r is None,
    {
        None
    }

    /// Which limited-supply upgrade token is consumed to upgrade this
    /// converter, if any.
    pub fn upgrade_token(&self) -> (r: Option<crate::entity::faction::alt_kit::UpgradeToken>)
        ensures
            self matches ConverterKind::Colony(c) ==> r == if c.spec_upgradable() {
                Some(crate::entity::faction::alt_kit::UpgradeToken::Colony)
            } else {
                None::<crate::entity::faction::alt_kit::UpgradeToken>
            },
            self matches ConverterKind::Prototype(p) ==> r == if 1 <= p.id.0 <= 7 {
                Some(crate::entity::faction::alt_kit::UpgradeToken::TierOne)
            } else if 8 <= p.id.0 <= 14 {
                Some(crate::entity::faction::alt_kit::UpgradeToken::TierTwo)
            } else {
                None::<crate::entity::faction::alt_kit::UpgradeToken>
            },
            self matches ConverterKind::Relic(_) ==> r is None,
            self matches ConverterKind::Kit(_) ==> r is None,
    {
        match self {
            ConverterKind::Colony(c) => c.upgrade_token(),
            ConverterKind::Prototype(p) => p.upgrade_token(),
            ConverterKind::Relic(w) => w.upgrade_token(),
            ConverterKind::Kit(k) => k.upgrade_token(),
        }
    }

    /// The color of the converter's arrow, used to determine when the
    /// converter can be run.
    pub fn color(&self) -> (r: Arrow)
        ensures
            r == self.spec_color(),
    {
        match self {
            ConverterKind::Colony(c) => c.color(),
            ConverterKind::Prototype(p) => p.color(),
            ConverterKind::Relic(w) => w.color(),
            ConverterKind::Kit(k) => k.color(),
        }
    }
}

} // verus!
