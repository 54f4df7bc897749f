//! Game state representation: the phase state machine, the reference
//! data store, and the authoritative ownership state mutated only by
//! validated records.

pub mod idmap;
pub mod player;
pub mod record;

use crate::deck::Deck;
use crate::entity::colony::{Colony, ColonyID};
use crate::entity::converter::{ConverterID, ConverterKind};
use crate::entity::cube::{
    count_of, record_bounded, record_nonnegative, Cube, CubeID, CubeRecord, CubeType, MAX_COUNT,
};
use crate::entity::faction::alt_caylion::ProjectState;
use crate::entity::faction::base_faderan::RelicWorld;
use crate::entity::faction::{spec_bifurcate, FactionType};
use crate::entity::technology::{ConverterPrototype, TechID, Technology};
use crate::entity::Item;
use crate::state::idmap::IdMap;
use crate::state::player::PlayerID;
use crate::state::record::{RecordGroup, RecordID, RecordType};
use vstd::prelude::*;

verus! {

/// Which phase the game is currently in.
#[derive(Clone, Copy, Debug, PartialEq, Eq, Hash, Structural)]
pub enum Phase {
    /// Initialization before the game has started: players and starting
    /// resources are being created.
    Init,
    /// Players trade with each other and run purple converters.
    Trade,
    /// The engine runs all marked white converters.
    Economy,
    /// Players decide which colony to purchase, if any.
    ColonyBid,
    /// Players decide which tech teams to bid on, if any.
    TechBid,
    /// Stealing converters run, targeting players not marked safe.
    ZethSteal,
    /// Debts are resolved, including future value and recurring debts.
    Resolution,
    /// All points are totalled and a winner is decided.
    Finish,
}

impl Default for Phase {
    /// The game starts in the initialization phase.
    fn default() -> (r: Self)
        ensures
            r == Phase::Init,
    {
        Phase::Init
    }
}

/// The legal phase transition table: whether `to` may directly follow
/// `from`. No transition into the initial phase is ever legal; the
/// branch out of the economy phase (into bidding for a normal round,
/// or straight to resolution for the final round) is decided by the
/// confluence counter tracked outside this table.
pub open spec fn phase_follows(from: Phase, to: Phase) -> bool {
    match to {
        Phase::Init => false,
        Phase::Trade => from == Phase::Init || from == Phase::ZethSteal,
        Phase::Economy => from == Phase::Trade,
        Phase::ColonyBid => from == Phase::Economy,
        Phase::TechBid => from == Phase::ColonyBid,
        Phase::ZethSteal => from == Phase::TechBid,
        Phase::Resolution => from == Phase::Economy,
        Phase::Finish => from == Phase::Resolution,
    }
}

/// Which confluence (full round) the game is currently in.
#[derive(Clone, Copy, Debug, PartialEq, Eq, Hash, Structural)]
pub struct Confluence(pub usize);

impl Default for Confluence {
    /// Play begins with the first confluence.
    fn default() -> (r: Self)
        ensures
            r == Confluence(1usize),
    {
        Confluence(1)
    }
}

/// The read-only reference data store: colony, technology and converter
/// prototype definitions, per-faction converter sets, and starting
/// grants. Loaded once before any record is applied and treated as
/// immutable for the remainder of the game.
#[derive(Clone, Debug)]
pub struct GameData {
    pub colony: IdMap<Colony>,
    pub tech: IdMap<Technology>,
    pub tech_prototype: IdMap<ConverterPrototype>,
    pub tech_converter: Vec<(FactionType, Vec<ConverterPrototype>)>,
    pub start_resources: Vec<(FactionType, Vec<Item>)>,
}

impl Default for GameData {
    /// An empty reference store.
    fn default() -> (r: Self)
        ensures
            r.wf(),
    {
        GameData::new()
    }
}

impl GameData {
    /// The identifier-keyed stores are well-formed maps.
    pub open spec fn wf(self) -> bool {
        self.colony.wf() && self.tech.wf() && self.tech_prototype.wf()
    }

    /// Creates an empty reference store.
    pub fn new() -> (r: Self)
        ensures
            r.wf(),
            r.colony@ == Map::<usize, Colony>::empty(),
            r.tech@ == Map::<usize, Technology>::empty(),
            r.tech_prototype@ == Map::<usize, ConverterPrototype>::empty(),
            r.tech_converter@.len() == 0,
            r.start_resources@.len() == 0,
    {
        GameData {
            colony: IdMap::new(),
            tech: IdMap::new(),
            tech_prototype: IdMap::new(),
            tech_converter: Vec::new(),
            start_resources: Vec::new(),
        }
    }

    /// Looks up a colony definition by identifier.
    pub fn lookup_colony(&self, id: crate::entity::colony::ColonyID) -> (r: Option<&Colony>)
        requires
            self.wf(),
        ensures
            match r {
                Some(c) => self.colony@.dom().contains(id.0) && *c == self.colony@[id.0],
                None => !self.colony@.dom().contains(id.0),
            },
    {
        self.colony.get(id.0)
    }

    /// Looks up a technology definition by identifier.
    pub fn lookup_tech(&self, id: TechID) -> (r: Option<&Technology>)
        requires
            self.wf(),
        ensures
            match r {
                Some(t) => self.tech@.dom().contains(id.0) && *t == self.tech@[id.0],
                None => !self.tech@.dom().contains(id.0),
            },
    {
        self.tech.get(id.0)
    }

    /// Looks up a converter prototype by the identifier of the
    /// technology that grants it.
    pub fn lookup_prototype(&self, id: TechID) -> (r: Option<&ConverterPrototype>)
        requires
            self.wf(),
        ensures
            match r {
                Some(p) => self.tech_prototype@.dom().contains(id.0) && *p == self.tech_prototype@[
                    id.0],
                None => !self.tech_prototype@.dom().contains(id.0),
            },
    {
        self.tech_prototype.get(id.0)
    }

    /// Looks up the converter set of a faction.
    pub fn lookup_faction_converters(&self, f: FactionType) -> (r: Option<&Vec<ConverterPrototype>>)
        ensures
            match r {
                Some(v) => exists|i: int|
                    0 <= i < self.tech_converter@.len() && (#[trigger] self.tech_converter@[i]).0
                        == f && *v == self.tech_converter@[i].1,
                None => forall|i: int|
                    0 <= i < self.tech_converter@.len() ==> (#[trigger] self.tech_converter@[i]).0
                        != f,
            },
    {
        let n = self.tech_converter.len();
        for i in 0..n
            invariant
                n == self.tech_converter@.len(),
                forall|j: int| 0 <= j < i ==> (#[trigger] self.tech_converter@[j]).0 != f,
        {
            if self.tech_converter[i].0 == f {
                return Some(&self.tech_converter[i].1);
            }
        }
        None
    }

    /// Looks up the starting items granted to a faction.
    pub fn lookup_starting_resources(&self, f: FactionType) -> (r: Option<&Vec<Item>>)
        ensures
            match r {
                Some(v) => exists|i: int|
                    0 <= i < self.start_resources@.len() && (#[trigger] self.start_resources@[i]).0
                        == f && *v == self.start_resources@[i].1,
                None => forall|i: int|
                    0 <= i < self.start_resources@.len() ==> (#[trigger] self.start_resources@[i]).0
                        != f,
            },
    {
        let n = self.start_resources.len();
        for i in 0..n
            invariant
                n == self.start_resources@.len(),
                forall|j: int| 0 <= j < i ==> (#[trigger] self.start_resources@[j]).0 != f,
        {
            if self.start_resources[i].0 == f {
                return Some(&self.start_resources[i].1);
            }
        }
        None
    }
}

/// The abstract state that records inspect and change: the phase, the
/// roster, every ownership map, and the bid bookkeeping, as mathematical
/// maps and sequences.
pub ghost struct StateView {
    pub phase: Phase,
    pub confluence: Confluence,
    pub factions: Map<usize, FactionType>,
    pub cubes: Map<usize, Cube>,
    pub cube_owners: Map<usize, PlayerID>,
    pub colony_owners: Map<usize, PlayerID>,
    pub converter_owners: Map<usize, PlayerID>,
    pub original_owners: Map<usize, PlayerID>,
    pub untradable_converters: Set<usize>,
    pub tech_team_owners: Map<usize, PlayerID>,
    pub player_colony_bid: Map<usize, (usize, Option<usize>)>,
    pub player_tech_bid: Map<usize, (usize, Option<usize>)>,
    pub colony_bid_track: Seq<Option<ColonyID>>,
    pub colony_bid_order: Seq<PlayerID>,
    pub tech_bid_track: Seq<Option<TechID>>,
    pub tech_bid_order: Seq<PlayerID>,
    pub techs: Map<usize, Technology>,
}

/// The identifiers of the cubes of one physical type that a player
/// currently owns.
pub open spec fn owned_cubes(v: StateView, p: PlayerID, t: CubeType) -> Set<usize> {
    Set::new(
        |k: usize|
            v.cube_owners.dom().contains(k) && v.cube_owners[k] == p && v.cubes.dom().contains(k)
                && v.cubes[k].typ == t,
    )
}

/// The cube record a player's holdings add up to: each slot is the
/// number of cubes of that type the player owns. The record is always
/// derived from ownership, never stored independently of it.
pub open spec fn player_record_of(v: StateView, p: PlayerID) -> CubeRecord {
    CubeRecord {
        food: owned_cubes(v, p, CubeType::Food).len() as i64,
        culture: owned_cubes(v, p, CubeType::Culture).len() as i64,
        industry: owned_cubes(v, p, CubeType::Industry).len() as i64,
        small_wild: owned_cubes(v, p, CubeType::UnitySmall).len() as i64,
        biotech: owned_cubes(v, p, CubeType::Biotech).len() as i64,
        power: owned_cubes(v, p, CubeType::Power).len() as i64,
        information: owned_cubes(v, p, CubeType::Information).len() as i64,
        large_wild: owned_cubes(v, p, CubeType::UnityLarge).len() as i64,
        ultratech: owned_cubes(v, p, CubeType::Ultratech).len() as i64,
        ships: owned_cubes(v, p, CubeType::Ship).len() as i64,
        points: owned_cubes(v, p, CubeType::VictoryPoint).len() as i64,
    }
}

/// Every listed cube is currently owned by the given party.
pub open spec fn cubes_owned_by(owners: Map<usize, PlayerID>, ids: Seq<CubeID>, p: PlayerID) -> bool {
    forall|i: int|
        0 <= i < ids.len() ==> owners.dom().contains((#[trigger] ids[i]).0) && owners[ids[i].0] == p
}

/// Every listed colony is currently owned by the given party.
pub open spec fn colonies_owned_by(owners: Map<usize, PlayerID>, ids: Seq<ColonyID>, p: PlayerID) -> bool {
    forall|i: int|
        0 <= i < ids.len() ==> owners.dom().contains((#[trigger] ids[i]).0) && owners[ids[i].0] == p
}

/// Every listed converter is currently owned by the given party and none
/// is flagged untradable.
pub open spec fn converters_tradable_by(
    owners: Map<usize, PlayerID>,
    untradable: Set<usize>,
    ids: Seq<ConverterID>,
    p: PlayerID,
) -> bool {
    forall|i: int|
        0 <= i < ids.len() ==> owners.dom().contains((#[trigger] ids[i]).0) && owners[ids[i].0] == p
            && !untradable.contains(ids[i].0)
}

/// How far apart two ship bids are.
pub open spec fn bid_gap(a: usize, b: usize) -> int {
    if a >= b {
        a - b
    } else {
        b - a
    }
}

/// A missing optional bid commits no ships.
pub open spec fn opt_bid(o: Option<usize>) -> int {
    match o {
        Some(x) => x as int,
        None => 0,
    }
}

/// Whether a record is legal against the current state: the pure,
/// side-effect-free legality predicate of the record log. Record types
/// whose effect is not yet part of the rules engine validate as false.
pub open spec fn valid_record(v: StateView, rec: RecordType) -> bool {
    match rec {
        RecordType::CreatePlayer { player, faction } => !v.factions.dom().contains(player.0)
            && forall|k: usize| #[trigger]
            v.factions.dom().contains(k) ==> v.factions[k] != faction && v.factions[k]
                != spec_bifurcate(faction),
        RecordType::ChangePhase { to } => phase_follows(v.phase, to),
        RecordType::TradeCubes { a, b, a_cubes, b_cubes } => a != b && cubes_owned_by(
            v.cube_owners,
            a_cubes@,
            a,
        ) && cubes_owned_by(v.cube_owners, b_cubes@, b),
        RecordType::TradeColony { a, b, a_colony, b_colony } => a != b && colonies_owned_by(
            v.colony_owners,
            a_colony@,
            a,
        ) && colonies_owned_by(v.colony_owners, b_colony@, b),
        RecordType::TradeConverter { a, b, a_converter, b_converter, permanent } => a != b
            && converters_tradable_by(v.converter_owners, v.untradable_converters, a_converter@, a)
            && converters_tradable_by(v.converter_owners, v.untradable_converters, b_converter@, b),
        RecordType::Bid { player, for_colony, for_colony_kjas, for_tech, for_tech_faderan } => {
            &&& !v.player_colony_bid.dom().contains(player.0)
            &&& !v.player_tech_bid.dom().contains(player.0)
            &&& (for_colony_kjas matches Some(b) ==> v.factions.dom().contains(player.0)
                && v.factions[player.0] == FactionType::KjasCore && bid_gap(b, for_colony) <= 1)
            &&& (for_tech_faderan matches Some(b) ==> v.factions.dom().contains(player.0)
                && v.factions[player.0] == FactionType::FaderanAlt && bid_gap(b, for_tech) <= 1)
            &&& for_colony + opt_bid(for_colony_kjas) + for_tech + opt_bid(for_tech_faderan)
                <= owned_cubes(v, player, CubeType::Ship).len()
        },
        RecordType::TakeColony { player, colony } => v.colony_bid_order.len() > 0
            && v.colony_bid_order[0] == player && (colony matches Some(i) ==> i
            < v.colony_bid_track.len() && v.colony_bid_track[i as int] is Some),
        RecordType::TakeResearch { player, tech } => v.tech_bid_order.len() > 0
            && v.tech_bid_order[0] == player && (tech matches Some(i) ==> i
            < v.tech_bid_track.len() && v.tech_bid_track[i as int] is Some),
        RecordType::InventTech { player, tech, cost } => {
            &&& v.tech_team_owners.dom().contains(tech.0)
            &&& v.tech_team_owners[tech.0] == player
            &&& v.techs.dom().contains(tech.0)
            &&& exists|j: int|
                0 <= j < v.techs[tech.0].cost@.len() && (#[trigger] v.techs[tech.0].cost@[j]).typ
                    == cost && count_of(player_record_of(v, player), v.techs[tech.0].cost@[j].typ)
                    >= v.techs[tech.0].cost@[j].qty
        },
        _ => false,
    }
}

/// Reassigns every listed cube to the given player.
pub open spec fn transfer_cubes(m: Map<usize, PlayerID>, ids: Seq<CubeID>, to: PlayerID) -> Map<
    usize,
    PlayerID,
>
    decreases ids.len(),
{
    if ids.len() == 0 {
        m
    } else {
        transfer_cubes(m, ids.drop_last(), to).insert(ids.last().0, to)
    }
}

/// Reassigns every listed colony to the given player.
pub open spec fn transfer_colonies(m: Map<usize, PlayerID>, ids: Seq<ColonyID>, to: PlayerID) -> Map<
    usize,
    PlayerID,
>
    decreases ids.len(),
{
    if ids.len() == 0 {
        m
    } else {
        transfer_colonies(m, ids.drop_last(), to).insert(ids.last().0, to)
    }
}

/// Reassigns every listed converter to the given player.
pub open spec fn transfer_converters(
    m: Map<usize, PlayerID>,
    ids: Seq<ConverterID>,
    to: PlayerID,
) -> Map<usize, PlayerID>
    decreases ids.len(),
{
    if ids.len() == 0 {
        m
    } else {
        transfer_converters(m, ids.drop_last(), to).insert(ids.last().0, to)
    }
}

/// Reassigning a list of identifiers binds exactly those identifiers
/// to the new owner and leaves every other binding alone.
pub proof fn lemma_transfer_converters_values(
    m: Map<usize, PlayerID>,
    ids: Seq<ConverterID>,
    to: PlayerID,
)
    ensures
        forall|i: int|
            0 <= i < ids.len() ==> transfer_converters(m, ids, to).dom().contains(
                (#[trigger] ids[i]).0,
            ) && transfer_converters(m, ids, to)[ids[i].0] == to,
        forall|k: usize|
            (forall|i: int| 0 <= i < ids.len() ==> (#[trigger] ids[i]).0 != k) ==> (
            transfer_converters(m, ids, to).dom().contains(k) == #[trigger] m.dom().contains(k)
                && (m.dom().contains(k) ==> transfer_converters(m, ids, to)[k] == m[k])),
    decreases ids.len(),
{
    if ids.len() > 0 {
        let t = ids.drop_last();
        lemma_transfer_converters_values(m, t, to);
        assert forall|i: int|
            0 <= i < ids.len() implies transfer_converters(m, ids, to).dom().contains(
            (#[trigger] ids[i]).0,
        ) && transfer_converters(m, ids, to)[ids[i].0] == to by {
            if i < ids.len() - 1 {
                assert(t[i] == ids[i]);
            }
        }
        assert forall|k: usize|
            (forall|i: int| 0 <= i < ids.len() ==> (#[trigger] ids[i]).0 != k) implies (
        transfer_converters(m, ids, to).dom().contains(k) == #[trigger] m.dom().contains(k) && (
        m.dom().contains(k) ==> transfer_converters(m, ids, to)[k] == m[k])) by {
            assert(forall|i: int| 0 <= i < t.len() ==> (#[trigger] t[i]).0 != k);
            assert(ids[ids.len() - 1].0 != k);
        }
    }
}

/// A temporary converter trade leaves each loaned converter's original
/// owner on record: the party that owned it before the trade, so the
/// loan can later be returned.
pub proof fn lemma_loan_records_original_owner(
    v: StateView,
    a: PlayerID,
    b: PlayerID,
    a_converter: Vec<ConverterID>,
    b_converter: Vec<ConverterID>,
)
    requires
        valid_record(
            v,
            RecordType::TradeConverter {
                a,
                b,
                a_converter: a_converter,
                b_converter: b_converter,
                permanent: false,
            },
        ),
    ensures
        ({
            let v2 = apply_record(
                v,
                RecordType::TradeConverter {
                    a,
                    b,
                    a_converter: a_converter,
                    b_converter: b_converter,
                    permanent: false,
                },
            );
            (forall|i: int|
                0 <= i < a_converter@.len() ==> v2.original_owners.dom().contains(
                    (#[trigger] a_converter@[i]).0,
                ) && v2.original_owners[a_converter@[i].0] == v.converter_owners[a_converter@[i].0])
                && (forall|i: int|
                0 <= i < b_converter@.len() ==> v2.original_owners.dom().contains(
                    (#[trigger] b_converter@[i]).0,
                ) && v2.original_owners[b_converter@[i].0] == v.converter_owners[b_converter@[i].0])
        }),
{
    let mid = transfer_converters(v.original_owners, a_converter@, a);
    lemma_transfer_converters_values(v.original_owners, a_converter@, a);
    lemma_transfer_converters_values(mid, b_converter@, b);
}

/// Once a player's joint bid has been applied, no further bid by the
/// same player validates until the bid bookkeeping is cleared for the
/// next round.
pub proof fn lemma_no_second_bid(
    v: StateView,
    player: PlayerID,
    first: RecordType,
    second: RecordType,
)
    requires
        first matches RecordType::Bid { player: p1, .. } && p1 == player,
        second matches RecordType::Bid { player: p2, .. } && p2 == player,
        valid_record(v, first),
    ensures
        !valid_record(apply_record(v, first), second),
{
}

/// The state after applying one legal record: the corresponding
/// mutation of the abstract state. Defined only for records that
/// validate; other records leave the state unchanged.
pub open spec fn apply_record(v: StateView, rec: RecordType) -> StateView
    recommends
        valid_record(v, rec),
{
    match rec {
        RecordType::CreatePlayer { player, faction } => StateView {
            factions: v.factions.insert(player.0, faction),
            ..v
        },
        RecordType::ChangePhase { to } => StateView { phase: to, ..v },
        RecordType::TradeCubes { a, b, a_cubes, b_cubes } => StateView {
            cube_owners: transfer_cubes(transfer_cubes(v.cube_owners, a_cubes@, b), b_cubes@, a),
            ..v
        },
        RecordType::TradeColony { a, b, a_colony, b_colony } => StateView {
            colony_owners: transfer_colonies(
                transfer_colonies(v.colony_owners, a_colony@, b),
                b_colony@,
                a,
            ),
            ..v
        },
        RecordType::TradeConverter { a, b, a_converter, b_converter, permanent } => StateView {
            converter_owners: transfer_converters(
                transfer_converters(v.converter_owners, a_converter@, b),
                b_converter@,
                a,
            ),
            original_owners: if permanent {
                v.original_owners
            } else {
                transfer_converters(
                    transfer_converters(v.original_owners, a_converter@, a),
                    b_converter@,
                    b,
                )
            },
            ..v
        },
        RecordType::Bid { player, for_colony, for_colony_kjas, for_tech, for_tech_faderan } => StateView {
            player_colony_bid: v.player_colony_bid.insert(player.0, (for_colony, for_colony_kjas)),
            player_tech_bid: v.player_tech_bid.insert(player.0, (for_tech, for_tech_faderan)),
            ..v
        },
        RecordType::TakeColony { player, colony } => {
            let order = if v.colony_bid_order.len() > 0 {
                v.colony_bid_order.drop_first()
            } else {
                v.colony_bid_order
            };
            match colony {
                None => StateView { colony_bid_order: order, ..v },
                Some(i) => if i < v.colony_bid_track.len() {
                    match v.colony_bid_track[i as int] {
                        Some(cid) => StateView {
                            colony_bid_order: order,
                            colony_bid_track: v.colony_bid_track.update(i as int, None),
                            colony_owners: v.colony_owners.insert(cid.0, player),
                            ..v
                        },
                        None => StateView { colony_bid_order: order, ..v },
                    }
                } else {
                    StateView { colony_bid_order: order, ..v }
                },
            }
        },
        RecordType::TakeResearch { player, tech } => {
            let order = if v.tech_bid_order.len() > 0 {
                v.tech_bid_order.drop_first()
            } else {
                v.tech_bid_order
            };
            match tech {
                None => StateView { tech_bid_order: order, ..v },
                Some(i) => if i < v.tech_bid_track.len() {
                    match v.tech_bid_track[i as int] {
                        Some(tid) => StateView {
                            tech_bid_order: order,
                            tech_bid_track: v.tech_bid_track.update(i as int, None),
                            tech_team_owners: v.tech_team_owners.insert(tid.0, player),
                            ..v
                        },
                        None => StateView { tech_bid_order: order, ..v },
                    }
                } else {
                    StateView { tech_bid_order: order, ..v }
                },
            }
        },
        RecordType::InventTech { player, tech, cost } => StateView {
            tech_team_owners: v.tech_team_owners.remove(tech.0),
            ..v
        },
        _ => v,
    }
}

/// The state after applying a sequence of records in order.
pub open spec fn apply_all(v: StateView, recs: Seq<RecordType>) -> StateView
    decreases recs.len(),
{
    if recs.len() == 0 {
        v
    } else {
        apply_all(apply_record(v, recs[0]), recs.drop_first())
    }
}

/// Every record of the sequence is legal against the state reached by
/// applying the records before it.
pub open spec fn valid_group(v: StateView, recs: Seq<RecordType>) -> bool
    decreases recs.len(),
{
    if recs.len() == 0 {
        true
    } else {
        valid_record(v, recs[0]) && valid_group(apply_record(v, recs[0]), recs.drop_first())
    }
}

/// Applying a sequence with one more record at its end applies that
/// record to the state the prefix reaches.
pub proof fn lemma_apply_all_push(v: StateView, recs: Seq<RecordType>, x: RecordType)
    ensures
        apply_all(v, recs.push(x)) == apply_record(apply_all(v, recs), x),
    decreases recs.len(),
{
    let s = recs.push(x);
    if recs.len() == 0 {
        assert(s[0] == x);
        assert(s.drop_first() =~= Seq::<RecordType>::empty());
        assert(apply_all(v, s) == apply_all(apply_record(v, x), s.drop_first()));
        assert(apply_all(apply_record(v, x), Seq::<RecordType>::empty()) == apply_record(v, x));
        assert(apply_all(v, recs) == v);
    } else {
        assert(s[0] == recs[0]);
        assert(s.drop_first() =~= recs.drop_first().push(x));
        lemma_apply_all_push(apply_record(v, recs[0]), recs.drop_first(), x);
        assert(apply_all(v, s) == apply_all(apply_record(v, s[0]), s.drop_first()));
        assert(apply_all(v, recs) == apply_all(apply_record(v, recs[0]), recs.drop_first()));
    }
}

/// Whether the game may legally move from one phase to the requested
/// one.
pub fn phase_change_allowed(from: Phase, to: Phase) -> (r: bool)
    ensures
        r == phase_follows(from, to),
{
    match to {
        Phase::Init => false,
        Phase::Trade => from == Phase::Init || from == Phase::ZethSteal,
        Phase::Economy => from == Phase::Trade,
        Phase::ColonyBid => from == Phase::Economy,
        Phase::TechBid => from == Phase::ColonyBid,
        Phase::ZethSteal => from == Phase::TechBid,
        Phase::Resolution => from == Phase::Economy,
        Phase::Finish => from == Phase::Resolution,
    }
}

/// Used to track the state of the game. Modified atomically by applying
/// validated records; records are the only way the state changes.
pub struct GameState {
    /// Which phase the game is currently in.
    pub phase: Phase,
    /// Which confluence the game is currently in.
    pub confluence: Confluence,
    /// Reference data for converters, techs, planets and grants.
    pub data: GameData,
    /// Techs waiting to be shared at the sharing phase.
    pub to_share: IdMap<()>,
    /// Which techs are licensed rather than shared.
    pub yengii_techs: IdMap<()>,
    /// The current deck of technologies, shuffled then sorted by tier.
    pub tech_deck: Deck<TechID>,
    /// The current deck of planets, shuffled.
    pub colony_deck: Deck<ColonyID>,
    /// The deck of relic worlds.
    pub relic_deck: Deck<RelicWorld>,
    /// Every live converter, by identifier.
    pub converters: IdMap<ConverterKind>,
    /// Map from converters to their current owners.
    pub converter_owners: IdMap<PlayerID>,
    /// Original owners of temporarily transferred converters.
    pub original_owners: IdMap<PlayerID>,
    /// Converters that cannot be traded.
    pub untradable_converters: IdMap<()>,
    /// Map from cube IDs to cubes.
    pub cubes: IdMap<Cube>,
    /// Map from cube IDs to their owners.
    pub cube_owners: IdMap<PlayerID>,
    /// Who owns which tech team, if not yet invented.
    pub tech_team_owners: IdMap<PlayerID>,
    /// How many victory points each player has.
    pub victory_points: IdMap<usize>,
    /// Each player's colony bid, and an optional second bid.
    pub player_colony_bid: IdMap<(usize, Option<usize>)>,
    /// Each player's tech bid, and an optional second bid.
    pub player_tech_bid: IdMap<(usize, Option<usize>)>,
    /// Which colonies are on the bid track.
    pub colony_bid_track: Vec<Option<ColonyID>>,
    /// The order of players' colony bids.
    pub colony_bid_order: Vec<PlayerID>,
    /// Which techs are on the bid track.
    pub tech_bid_track: Vec<Option<TechID>>,
    /// The order of players' tech bids.
    pub tech_bid_order: Vec<PlayerID>,
    /// Who owns which colony.
    pub colony_owners: IdMap<PlayerID>,
    /// The particular faction each player is.
    pub factions: IdMap<FactionType>,
    /// Identifier counters, owned by the state so identifier generation
    /// is deterministic and replayable.
    pub next_cube_id: CubeID,
    pub next_converter_id: ConverterID,
    pub next_record_id: RecordID,
    /// Colonies producing double output.
    pub doubled_colonies: IdMap<()>,
    /// How many acknowledgements each player has.
    pub acknowledgements: IdMap<usize>,
    /// How many fleet support each player has.
    pub fleet_support: IdMap<usize>,
    /// Nullspace planets still playable, with their cost.
    pub kit_planets: Vec<(usize, ColonyID)>,
    /// Players safe from stealing this round.
    pub zeth_safe: IdMap<()>,
    /// The status of all current projects.
    pub project_status: IdMap<ProjectState>,
    /// Which converters are associated with each project.
    pub project_converters: IdMap<Vec<ConverterID>>,
    /// Converters with halved costs, and the new cost.
    pub halved_converters: IdMap<CubeRecord>,
    /// How many service tokens each player owns.
    pub owned_arrow_tokens: IdMap<usize>,
    /// Techs which carry regret when traded away.
    pub regret_techs: IdMap<()>,
    /// How many regret each player has.
    pub regret: IdMap<usize>,
    /// Which colonies have factories, and what cube type they produce.
    pub factory_colonies: IdMap<CubeType>,
    /// Who currently holds whose retrocontinuity token.
    pub retro_owners: IdMap<PlayerID>,
    /// Whose retrocontinuity tokens have been used.
    pub retro_used: IdMap<()>,
    /// Converters already affected by retrocontinuity.
    pub retro_used_converter: IdMap<()>,
    /// Colonies already affected by retrocontinuity.
    pub retro_used_colony: IdMap<()>,
    /// How much each player's colony support has increased from base.
    pub increased_colony_support: IdMap<usize>,
    /// Which cube colors each player may not use as inputs.
    pub constraints: IdMap<Vec<CubeType>>,
    /// How many undesirable converters may run.
    pub undesirable_limit: usize,
    /// Which converters are the undesirables.
    pub undesirable_converters: IdMap<()>,
    /// Which colonies carry cross-colonization tokens.
    pub cross_tokens: IdMap<()>,
}

impl View for GameState {
    type V = StateView;

    open spec fn view(&self) -> StateView {
        StateView {
            phase: self.phase,
            confluence: self.confluence,
            factions: self.factions@,
            cubes: self.cubes@,
            cube_owners: self.cube_owners@,
            colony_owners: self.colony_owners@,
            converter_owners: self.converter_owners@,
            original_owners: self.original_owners@,
            untradable_converters: self.untradable_converters@.dom(),
            tech_team_owners: self.tech_team_owners@,
            player_colony_bid: self.player_colony_bid@,
            player_tech_bid: self.player_tech_bid@,
            colony_bid_track: self.colony_bid_track@,
            colony_bid_order: self.colony_bid_order@,
            tech_bid_track: self.tech_bid_track@,
            tech_bid_order: self.tech_bid_order@,
            techs: self.data.tech@,
        }
    }
}

/// The parts of the state that no record ever changes: the reference
/// data, the decks, the converter definitions, the counters, and the
/// per-faction auxiliary bookkeeping.
pub open spec fn same_background(a: GameState, b: GameState) -> bool {
    &&& b.data == a.data
    &&& b.confluence == a.confluence
    &&& b.to_share == a.to_share
    &&& b.yengii_techs == a.yengii_techs
    &&& b.tech_deck == a.tech_deck
    &&& b.colony_deck == a.colony_deck
    &&& b.relic_deck == a.relic_deck
    &&& b.converters == a.converters
    &&& b.untradable_converters == a.untradable_converters
    &&& b.cubes == a.cubes
    &&& b.victory_points == a.victory_points
    &&& b.next_cube_id == a.next_cube_id
    &&& b.next_converter_id == a.next_converter_id
    &&& b.next_record_id == a.next_record_id
    &&& b.doubled_colonies == a.doubled_colonies
    &&& b.acknowledgements == a.acknowledgements
    &&& b.fleet_support == a.fleet_support
    &&& b.kit_planets == a.kit_planets
    &&& b.zeth_safe == a.zeth_safe
    &&& b.project_status == a.project_status
    &&& b.project_converters == a.project_converters
    &&& b.halved_converters == a.halved_converters
    &&& b.owned_arrow_tokens == a.owned_arrow_tokens
    &&& b.regret_techs == a.regret_techs
    &&& b.regret == a.regret
    &&& b.factory_colonies == a.factory_colonies
    &&& b.retro_owners == a.retro_owners
    &&& b.retro_used == a.retro_used
    &&& b.retro_used_converter == a.retro_used_converter
    &&& b.retro_used_colony == a.retro_used_colony
    &&& b.increased_colony_support == a.increased_colony_support
    &&& b.constraints == a.constraints
    &&& b.undesirable_limit == a.undesirable_limit
    &&& b.undesirable_converters == a.undesirable_converters
    &&& b.cross_tokens == a.cross_tokens
}

impl GameState {
    /// Every identifier-keyed store is a well-formed map and the number
    /// of tracked cubes stays within the counting bound.
    pub open spec fn wf(self) -> bool {
        &&& self.data.wf()
        &&& self.to_share.wf()
        &&& self.yengii_techs.wf()
        &&& self.converters.wf()
        &&& self.converter_owners.wf()
        &&& self.original_owners.wf()
        &&& self.untradable_converters.wf()
        &&& self.cubes.wf()
        &&& self.cube_owners.wf()
        &&& self.tech_team_owners.wf()
        &&& self.victory_points.wf()
        &&& self.player_colony_bid.wf()
        &&& self.player_tech_bid.wf()
        &&& self.colony_owners.wf()
        &&& self.factions.wf()
        &&& self.doubled_colonies.wf()
        &&& self.acknowledgements.wf()
        &&& self.fleet_support.wf()
        &&& self.zeth_safe.wf()
        &&& self.project_status.wf()
        &&& self.project_converters.wf()
        &&& self.halved_converters.wf()
        &&& self.owned_arrow_tokens.wf()
        &&& self.regret_techs.wf()
        &&& self.regret.wf()
        &&& self.factory_colonies.wf()
        &&& self.retro_owners.wf()
        &&& self.retro_used.wf()
        &&& self.retro_used_converter.wf()
        &&& self.retro_used_colony.wf()
        &&& self.increased_colony_support.wf()
        &&& self.constraints.wf()
        &&& self.undesirable_converters.wf()
        &&& self.cross_tokens.wf()
        &&& self.cube_owners@.dom().len() <= MAX_COUNT
    }

    /// Constructs a new empty game state with the given reference data,
    /// in the initialization phase of the first confluence.
    pub fn new(data: GameData) -> (r: Self)
        requires
            data.wf(),
        ensures
            r.wf(),
            r.data == data,
            r.phase == Phase::Init,
            r.confluence == Confluence(1usize),
            r@.factions == Map::<usize, FactionType>::empty(),
            r@.cubes == Map::<usize, Cube>::empty(),
            r@.cube_owners == Map::<usize, PlayerID>::empty(),
            r@.colony_owners == Map::<usize, PlayerID>::empty(),
            r@.converter_owners == Map::<usize, PlayerID>::empty(),
            r@.original_owners == Map::<usize, PlayerID>::empty(),
            r@.tech_team_owners == Map::<usize, PlayerID>::empty(),
            r@.player_colony_bid == Map::<usize, (usize, Option<usize>)>::empty(),
            r@.player_tech_bid == Map::<usize, (usize, Option<usize>)>::empty(),
            r@.colony_bid_track == Seq::<Option<ColonyID>>::empty(),
            r@.colony_bid_order == Seq::<PlayerID>::empty(),
            r@.tech_bid_track == Seq::<Option<TechID>>::empty(),
            r@.tech_bid_order == Seq::<PlayerID>::empty(),
            r.tech_deck@ == Seq::<TechID>::empty(),
            r.colony_deck@ == Seq::<ColonyID>::empty(),
            r.relic_deck@ == Seq::<RelicWorld>::empty(),
            r.to_share@ == Map::<usize, ()>::empty(),
            r.yengii_techs@ == Map::<usize, ()>::empty(),
            r.converters@ == Map::<usize, ConverterKind>::empty(),
            r.untradable_converters@ == Map::<usize, ()>::empty(),
            r.victory_points@ == Map::<usize, usize>::empty(),
            r.next_cube_id == CubeID(0usize),
            r.next_converter_id == ConverterID(0usize),
            r.next_record_id == RecordID(0usize),
            r.doubled_colonies@ == Map::<usize, ()>::empty(),
            r.acknowledgements@ == Map::<usize, usize>::empty(),
            r.fleet_support@ == Map::<usize, usize>::empty(),
            r.kit_planets@ == Seq::<(usize, ColonyID)>::empty(),
            r.zeth_safe@ == Map::<usize, ()>::empty(),
            r.project_status@ == Map::<usize, ProjectState>::empty(),
            r.project_converters@ == Map::<usize, Vec<ConverterID>>::empty(),
            r.halved_converters@ == Map::<usize, CubeRecord>::empty(),
            r.owned_arrow_tokens@ == Map::<usize, usize>::empty(),
            r.regret_techs@ == Map::<usize, ()>::empty(),
            r.regret@ == Map::<usize, usize>::empty(),
            r.factory_colonies@ == Map::<usize, CubeType>::empty(),
            r.retro_owners@ == Map::<usize, PlayerID>::empty(),
            r.retro_used@ == Map::<usize, ()>::empty(),
            r.retro_used_converter@ == Map::<usize, ()>::empty(),
            r.retro_used_colony@ == Map::<usize, ()>::empty(),
            r.increased_colony_support@ == Map::<usize, usize>::empty(),
            r.constraints@ == Map::<usize, Vec<CubeType>>::empty(),
            r.undesirable_limit == 0,
            r.undesirable_converters@ == Map::<usize, ()>::empty(),
            r.cross_tokens@ == Map::<usize, ()>::empty(),
    {
        let r = GameState {
            phase: Phase::Init,
            confluence: Confluence(1),
            data,
            to_share: IdMap::new(),
            yengii_techs: IdMap::new(),
            tech_deck: Deck::new(Vec::new()),
            colony_deck: Deck::new(Vec::new()),
            relic_deck: Deck::new(Vec::new()),
            converters: IdMap::new(),
            converter_owners: IdMap::new(),
            original_owners: IdMap::new(),
            untradable_converters: IdMap::new(),
            cubes: IdMap::new(),
            cube_owners: IdMap::new(),
            tech_team_owners: IdMap::new(),
            victory_points: IdMap::new(),
            player_colony_bid: IdMap::new(),
            player_tech_bid: IdMap::new(),
            colony_bid_track: Vec::new(),
            colony_bid_order: Vec::new(),
            tech_bid_track: Vec::new(),
            tech_bid_order: Vec::new(),
            colony_owners: IdMap::new(),
            factions: IdMap::new(),
            next_cube_id: CubeID(0),
            next_converter_id: ConverterID(0),
            next_record_id: RecordID(0),
            doubled_colonies: IdMap::new(),
            acknowledgements: IdMap::new(),
            fleet_support: IdMap::new(),
            kit_planets: Vec::new(),
            zeth_safe: IdMap::new(),
            project_status: IdMap::new(),
            project_converters: IdMap::new(),
            halved_converters: IdMap::new(),
            owned_arrow_tokens: IdMap::new(),
            regret_techs: IdMap::new(),
            regret: IdMap::new(),
            factory_colonies: IdMap::new(),
            retro_owners: IdMap::new(),
            retro_used: IdMap::new(),
            retro_used_converter: IdMap::new(),
            retro_used_colony: IdMap::new(),
            increased_colony_support: IdMap::new(),
            constraints: IdMap::new(),
            undesirable_limit: 0,
            undesirable_converters: IdMap::new(),
            cross_tokens: IdMap::new(),
        };
        proof {
            assert(r.cube_owners@.dom() =~= Set::<usize>::empty());
            broadcast use vstd::set::group_set_axioms;
        }
        r
    }

    /// Replaces the reference data for the game; nothing else changes.
    pub fn set_game_data(&mut self, data: GameData)
        requires
            old(self).wf(),
            data.wf(),
        ensures
            final(self).data == data,
            *final(self) == (GameState { data, ..*old(self) }),
            final(self).wf(),
    {
        self.data = data;
    }
}

/// Adding one unseen identifier to the seen set raises the filtered
/// count by one exactly when the identifier is in the filter set.
proof fn lemma_count_step(a: Set<usize>, seen: Set<usize>, k: usize)
    requires
        a.finite(),
        seen.finite(),
        !seen.contains(k),
    ensures
        a.contains(k) ==> a.intersect(seen.insert(k)).len() == a.intersect(seen).len() + 1,
        !a.contains(k) ==> a.intersect(seen.insert(k)).len() == a.intersect(seen).len(),
        a.intersect(seen.insert(k)).finite(),
        a.intersect(seen).finite(),
    decreases 0int,
{
    broadcast use vstd::set::group_set_axioms;

    if a.contains(k) {
        assert(a.intersect(seen.insert(k)) =~= a.intersect(seen).insert(k));
        assert(!a.intersect(seen).contains(k));
    } else {
        assert(a.intersect(seen.insert(k)) =~= a.intersect(seen));
    }
}

/// The owned-cube filter is a finite subset of the ownership map's
/// domain.
proof fn lemma_owned_finite(v: StateView, p: PlayerID, t: CubeType)
    requires
        v.cube_owners.dom().finite(),
    ensures
        owned_cubes(v, p, t).finite(),
        owned_cubes(v, p, t).len() <= v.cube_owners.dom().len(),
{
    broadcast use vstd::set::group_set_axioms;

    assert(owned_cubes(v, p, t).subset_of(v.cube_owners.dom()));
    vstd::set_lib::lemma_len_subset(owned_cubes(v, p, t), v.cube_owners.dom());
}

proof fn lemma_transfer_cubes_step(m: Map<usize, PlayerID>, ids: Seq<CubeID>, i: int, to: PlayerID)
    requires
        0 <= i < ids.len(),
    ensures
        transfer_cubes(m, ids.subrange(0, i + 1), to) == transfer_cubes(
            m,
            ids.subrange(0, i),
            to,
        ).insert(ids[i].0, to),
{
    assert(ids.subrange(0, i + 1).drop_last() =~= ids.subrange(0, i));
    assert(ids.subrange(0, i + 1).last() == ids[i]);
}

proof fn lemma_transfer_colonies_step(
    m: Map<usize, PlayerID>,
    ids: Seq<ColonyID>,
    i: int,
    to: PlayerID,
)
    requires
        0 <= i < ids.len(),
    ensures
        transfer_colonies(m, ids.subrange(0, i + 1), to) == transfer_colonies(
            m,
            ids.subrange(0, i),
            to,
        ).insert(ids[i].0, to),
{
    assert(ids.subrange(0, i + 1).drop_last() =~= ids.subrange(0, i));
    assert(ids.subrange(0, i + 1).last() == ids[i]);
}

proof fn lemma_transfer_converters_step(
    m: Map<usize, PlayerID>,
    ids: Seq<ConverterID>,
    i: int,
    to: PlayerID,
)
    requires
        0 <= i < ids.len(),
    ensures
        transfer_converters(m, ids.subrange(0, i + 1), to) == transfer_converters(
            m,
            ids.subrange(0, i),
            to,
        ).insert(ids[i].0, to),
{
    assert(ids.subrange(0, i + 1).drop_last() =~= ids.subrange(0, i));
    assert(ids.subrange(0, i + 1).last() == ids[i]);
}

impl GameState {
    /// The cubes a player currently owns, counted by type. The returned
    /// record's per-type totals equal the number of cubes of that type
    /// currently owned by the player.
    #[verifier::loop_isolation(false)]
    pub fn get_player_cubes(&self, id: PlayerID) -> (r: CubeRecord)
        requires
            self.wf(),
        ensures
            r == player_record_of(self@, id),
            record_bounded(r),
            record_nonnegative(r),
    {
        broadcast use vstd::set::group_set_axioms;

        let ghost v = self@;
        proof {
            self.cube_owners.lemma_finite();
            lemma_owned_finite(v, id, CubeType::Food);
            lemma_owned_finite(v, id, CubeType::Culture);
            lemma_owned_finite(v, id, CubeType::Industry);
            lemma_owned_finite(v, id, CubeType::UnitySmall);
            lemma_owned_finite(v, id, CubeType::Biotech);
            lemma_owned_finite(v, id, CubeType::Power);
            lemma_owned_finite(v, id, CubeType::Information);
            lemma_owned_finite(v, id, CubeType::UnityLarge);
            lemma_owned_finite(v, id, CubeType::Ultratech);
            lemma_owned_finite(v, id, CubeType::Ship);
            lemma_owned_finite(v, id, CubeType::VictoryPoint);
        }
        let keys = self.cube_owners.keys();
        let mut food: i64 = 0;
        let mut culture: i64 = 0;
        let mut industry: i64 = 0;
        let mut small_wild: i64 = 0;
        let mut biotech: i64 = 0;
        let mut power: i64 = 0;
        let mut information: i64 = 0;
        let mut large_wild: i64 = 0;
        let mut ultratech: i64 = 0;
        let mut ships: i64 = 0;
        let mut points: i64 = 0;
        let ghost mut seen: Set<usize> = Set::empty();
        proof {
            assert forall|t: CubeType| true implies #[trigger] owned_cubes(v, id, t).intersect(
                seen,
            ) =~= Set::<usize>::empty() by {}
        }
        let n = keys.len();
        for i in 0..n
            invariant
                n == keys@.len(),
                seen.finite(),
                forall|k: usize|
                    seen.contains(k) <==> exists|j: int| 0 <= j < i && #[trigger] keys@[j] == k,
                food == owned_cubes(v, id, CubeType::Food).intersect(seen).len(),
                culture == owned_cubes(v, id, CubeType::Culture).intersect(seen).len(),
                industry == owned_cubes(v, id, CubeType::Industry).intersect(seen).len(),
                small_wild == owned_cubes(v, id, CubeType::UnitySmall).intersect(seen).len(),
                biotech == owned_cubes(v, id, CubeType::Biotech).intersect(seen).len(),
                power == owned_cubes(v, id, CubeType::Power).intersect(seen).len(),
                information == owned_cubes(v, id, CubeType::Information).intersect(seen).len(),
                large_wild == owned_cubes(v, id, CubeType::UnityLarge).intersect(seen).len(),
                ultratech == owned_cubes(v, id, CubeType::Ultratech).intersect(seen).len(),
                ships == owned_cubes(v, id, CubeType::Ship).intersect(seen).len(),
                points == owned_cubes(v, id, CubeType::VictoryPoint).intersect(seen).len(),
                0 <= food <= i,
                0 <= culture <= i,
                0 <= industry <= i,
                0 <= small_wild <= i,
                0 <= biotech <= i,
                0 <= power <= i,
                0 <= information <= i,
                0 <= large_wild <= i,
                0 <= ultratech <= i,
                0 <= ships <= i,
                0 <= points <= i,
        {
            let k = keys[i];
            proof {
                assert(!seen.contains(k)) by {
                    if seen.contains(k) {
                        let j = choose|j: int| 0 <= j < i && #[trigger] keys@[j] == k;
                        assert(keys@[j] == keys@[i as int]);
                    }
                }
                lemma_count_step(owned_cubes(v, id, CubeType::Food), seen, k);
                lemma_count_step(owned_cubes(v, id, CubeType::Culture), seen, k);
                lemma_count_step(owned_cubes(v, id, CubeType::Industry), seen, k);
                lemma_count_step(owned_cubes(v, id, CubeType::UnitySmall), seen, k);
                lemma_count_step(owned_cubes(v, id, CubeType::Biotech), seen, k);
                lemma_count_step(owned_cubes(v, id, CubeType::Power), seen, k);
                lemma_count_step(owned_cubes(v, id, CubeType::Information), seen, k);
                lemma_count_step(owned_cubes(v, id, CubeType::UnityLarge), seen, k);
                lemma_count_step(owned_cubes(v, id, CubeType::Ultratech), seen, k);
                lemma_count_step(owned_cubes(v, id, CubeType::Ship), seen, k);
                lemma_count_step(owned_cubes(v, id, CubeType::VictoryPoint), seen, k);
            }
            let owned_here = match self.cube_owners.get(k) {
                Some(o) => *o == id,
                None => false,
            };
            if owned_here {
                match self.cubes.get(k) {
                    Some(c) => {
                        match c.typ {
                            CubeType::Ship => ships = ships + 1,
                            CubeType::Culture => culture = culture + 1,
                            CubeType::Food => food = food + 1,
                            CubeType::Industry => industry = industry + 1,
                            CubeType::UnitySmall => small_wild = small_wild + 1,
                            CubeType::Biotech => biotech = biotech + 1,
                            CubeType::Power => power = power + 1,
                            CubeType::Information => information = information + 1,
                            CubeType::UnityLarge => large_wild = large_wild + 1,
                            CubeType::Ultratech => ultratech = ultratech + 1,
                            CubeType::VictoryPoint => points = points + 1,
                            _ => {},
                        }
                    },
                    None => {},
                }
            }
            proof {
                seen = seen.insert(k);
                assert forall|kk: usize| seen.contains(kk) implies exists|j: int|
                    0 <= j < i + 1 && #[trigger] keys@[j] == kk by {
                    if kk == k {
                        assert(keys@[i as int] == kk);
                    } else {
                        let j = choose|j: int| 0 <= j < i && #[trigger] keys@[j] == kk;
                    }
                }
            }
        }
        proof {
            assert forall|t: CubeType| true implies #[trigger] owned_cubes(v, id, t).intersect(seen)
                =~= owned_cubes(v, id, t) by {
                assert forall|k: usize| owned_cubes(v, id, t).contains(k) implies seen.contains(
                    k,
                ) by {
                    assert(v.cube_owners.dom().contains(k));
                    let j = choose|j: int| 0 <= j < keys@.len() && keys@[j] == k;
                }
            }
        }
        CubeRecord {
            food,
            culture,
            industry,
            small_wild,
            biotech,
            power,
            information,
            large_wild,
            ultratech,
            ships,
            points,
        }
    }

    /// Whether a player creation is legal: the player identifier must be
    /// new and neither the faction nor its bifurcation counterpart taken.
    #[verifier::loop_isolation(false)]
    fn validate_create_player(&self, player: PlayerID, faction: FactionType) -> (r: bool)
        requires
            self.wf(),
        ensures
            r == (!self@.factions.dom().contains(player.0) && forall|k: usize| #[trigger]
                self@.factions.dom().contains(k) ==> self@.factions[k] != faction
                && self@.factions[k] != spec_bifurcate(faction)),
    {
        if self.factions.contains_key(player.0) {
            return false;
        }
        let bf = faction.bifurcate();
        let keys = self.factions.keys();
        let n = keys.len();
        for i in 0..n
            invariant
                n == keys@.len(),
                forall|j: int|
                    0 <= j < i ==> self@.factions[#[trigger] keys@[j]] != faction && self@.factions[
                        keys@[j]] != spec_bifurcate(faction),
        {
            let k = keys[i];
            match self.factions.get(k) {
                Some(g) => {
                    if *g == faction || *g == bf {
                        return false;
                    }
                },
                None => {},
            }
        }
        proof {
            assert forall|k: usize| #[trigger]
                self@.factions.dom().contains(k) implies self@.factions[k] != faction
                && self@.factions[k] != spec_bifurcate(faction) by {
                let j = choose|j: int| 0 <= j < keys@.len() && keys@[j] == k;
            }
        }
        true
    }

    /// Whether every listed cube is owned by the given party.
    #[verifier::loop_isolation(false)]
    fn cubes_all_owned(&self, ids: &Vec<CubeID>, p: PlayerID) -> (r: bool)
        requires
            self.wf(),
        ensures
            r == cubes_owned_by(self@.cube_owners, ids@, p),
    {
        let n = ids.len();
        for i in 0..n
            invariant
                n == ids@.len(),
                forall|j: int|
                    0 <= j < i ==> self@.cube_owners.dom().contains((#[trigger] ids@[j]).0)
                        && self@.cube_owners[ids@[j].0] == p,
        {
            match self.cube_owners.get(ids[i].0) {
                Some(o) => {
                    if *o != p {
                        return false;
                    }
                },
                None => {
                    return false;
                },
            }
        }
        true
    }

    /// Whether every listed colony is owned by the given party.
    #[verifier::loop_isolation(false)]
    fn colonies_all_owned(&self, ids: &Vec<ColonyID>, p: PlayerID) -> (r: bool)
        requires
            self.wf(),
        ensures
            r == colonies_owned_by(self@.colony_owners, ids@, p),
    {
        let n = ids.len();
        for i in 0..n
            invariant
                n == ids@.len(),
                forall|j: int|
                    0 <= j < i ==> self@.colony_owners.dom().contains((#[trigger] ids@[j]).0)
                        && self@.colony_owners[ids@[j].0] == p,
        {
            match self.colony_owners.get(ids[i].0) {
                Some(o) => {
                    if *o != p {
                        return false;
                    }
                },
                None => {
                    return false;
                },
            }
        }
        true
    }

    /// Whether every listed converter is owned by the given party and
    /// tradable.
    #[verifier::loop_isolation(false)]
    fn converters_all_tradable(&self, ids: &Vec<ConverterID>, p: PlayerID) -> (r: bool)
        requires
            self.wf(),
        ensures
            r == converters_tradable_by(
                self@.converter_owners,
                self@.untradable_converters,
                ids@,
                p,
            ),
    {
        let n = ids.len();
        for i in 0..n
            invariant
                n == ids@.len(),
                forall|j: int|
                    0 <= j < i ==> self@.converter_owners.dom().contains((#[trigger] ids@[j]).0)
                        && self@.converter_owners[ids@[j].0] == p
                        && !self@.untradable_converters.contains(ids@[j].0),
        {
            if self.untradable_converters.contains_key(ids[i].0) {
                return false;
            }
            match self.converter_owners.get(ids[i].0) {
                Some(o) => {
                    if *o != p {
                        return false;
                    }
                },
                None => {
                    return false;
                },
            }
        }
        true
    }

    /// Whether a joint colony/tech bid is legal for this player.
    fn validate_bid(
        &self,
        player: PlayerID,
        for_colony: usize,
        for_colony_kjas: Option<usize>,
        for_tech: usize,
        for_tech_faderan: Option<usize>,
    ) -> (r: bool)
        requires
            self.wf(),
        ensures
            r == valid_record(
                self@,
                RecordType::Bid { player, for_colony, for_colony_kjas, for_tech, for_tech_faderan },
            ),
    {
        if self.player_colony_bid.contains_key(player.0) {
            return false;
        }
        if self.player_tech_bid.contains_key(player.0) {
            return false;
        }
        match for_colony_kjas {
            Some(b) => {
                let faction_ok = match self.factions.get(player.0) {
                    Some(f) => *f == FactionType::KjasCore,
                    None => false,
                };
                let gap = if b >= for_colony {
                    b - for_colony
                } else {
                    for_colony - b
                };
                if !faction_ok || gap > 1 {
                    return false;
                }
            },
            None => {},
        }
        match for_tech_faderan {
            Some(b) => {
                let faction_ok = match self.factions.get(player.0) {
                    Some(f) => *f == FactionType::FaderanAlt,
                    None => false,
                };
                let gap = if b >= for_tech {
                    b - for_tech
                } else {
                    for_tech - b
                };
                if !faction_ok || gap > 1 {
                    return false;
                }
            },
            None => {},
        }
        let rec = self.get_player_cubes(player);
        let ships = rec.count_type(CubeType::Ship);
        let committed: u128 = (for_colony as u128) + (match for_colony_kjas {
            Some(b) => b as u128,
            None => 0,
        }) + (for_tech as u128) + (match for_tech_faderan {
            Some(b) => b as u128,
            None => 0,
        });
        proof {
            self.cube_owners.lemma_finite();
            lemma_owned_finite(self@, player, CubeType::Ship);
            assert(count_of(player_record_of(self@, player), CubeType::Ship) == owned_cubes(
                self@,
                player,
                CubeType::Ship,
            ).len());
        }
        committed <= (ships as u128)
    }

    /// Whether a technology invention is legal: the player holds the
    /// team and can afford one of the listed alternate costs of the
    /// chosen cube type.
    #[verifier::loop_isolation(false)]
    fn validate_invent(&self, player: PlayerID, tech: TechID, cost: CubeType) -> (r: bool)
        requires
            self.wf(),
        ensures
            r == valid_record(self@, RecordType::InventTech { player, tech, cost }),
    {
        let owner_ok = match self.tech_team_owners.get(tech.0) {
            Some(o) => *o == player,
            None => false,
        };
        if !owner_ok {
            return false;
        }
        let t = match self.data.tech.get(tech.0) {
            Some(t) => t,
            None => {
                return false;
            },
        };
        let rec = self.get_player_cubes(player);
        let n = t.cost.len();
        for j in 0..n
            invariant
                n == t.cost@.len(),
                t == &self@.techs[tech.0],
                rec == player_record_of(self@, player),
                record_bounded(rec),
                record_nonnegative(rec),
                forall|i: int|
                    0 <= i < j ==> !((#[trigger] t.cost@[i]).typ == cost && count_of(
                        player_record_of(self@, player),
                        t.cost@[i].typ,
                    ) >= t.cost@[i].qty),
        {
            let c = t.cost[j];
            if c.typ == cost {
                let cnt = rec.count_type(c.typ);
                if cnt >= 0 && (c.qty as u128) <= (cnt as u128) {
                    return true;
                }
            }
        }
        false
    }

    /// Checks a record against the current state: the pure legality
    /// predicate of the record log. Never mutates state.
    pub fn validate(&self, rec: &RecordType) -> (r: bool)
        requires
            self.wf(),
        ensures
            r == valid_record(self@, *rec),
    {
        match rec {
            RecordType::CreatePlayer { player, faction } => self.validate_create_player(
                *player,
                *faction,
            ),
            RecordType::ChangePhase { to } => phase_change_allowed(self.phase, *to),
            RecordType::TradeCubes { a, b, a_cubes, b_cubes } => *a != *b && self.cubes_all_owned(
                a_cubes,
                *a,
            ) && self.cubes_all_owned(b_cubes, *b),
            RecordType::TradeColony { a, b, a_colony, b_colony } => *a != *b
                && self.colonies_all_owned(a_colony, *a) && self.colonies_all_owned(b_colony, *b),
            RecordType::TradeConverter { a, b, a_converter, b_converter, permanent } => *a != *b
                && self.converters_all_tradable(a_converter, *a) && self.converters_all_tradable(
                b_converter,
                *b,
            ),
            RecordType::Bid { player, for_colony, for_colony_kjas, for_tech, for_tech_faderan } => self
                .validate_bid(*player, *for_colony, *for_colony_kjas, *for_tech, *for_tech_faderan),
            RecordType::TakeColony { player, colony } => {
                if self.colony_bid_order.len() == 0 {
                    return false;
                }
                if self.colony_bid_order[0] != *player {
                    return false;
                }
                match colony {
                    Some(i) => *i < self.colony_bid_track.len() && self.colony_bid_track[*i]
                        .is_some(),
                    None => true,
                }
            },
            RecordType::TakeResearch { player, tech } => {
                if self.tech_bid_order.len() == 0 {
                    return false;
                }
                if self.tech_bid_order[0] != *player {
                    return false;
                }
                match tech {
                    Some(i) => *i < self.tech_bid_track.len() && self.tech_bid_track[*i].is_some(),
                    None => true,
                }
            },
            RecordType::InventTech { player, tech, cost } => self.validate_invent(
                *player,
                *tech,
                *cost,
            ),
            _ => false,
        }
    }

    /// Moves the listed cubes of each party to the other.
    #[verifier::loop_isolation(false)]
    fn apply_trade_cubes(&mut self, a: PlayerID, b: PlayerID, a_cubes: &Vec<CubeID>, b_cubes: &Vec<
        CubeID,
    >)
        requires
            old(self).wf(),
            cubes_owned_by(old(self)@.cube_owners, a_cubes@, a),
            cubes_owned_by(old(self)@.cube_owners, b_cubes@, b),
        ensures
            final(self).cube_owners@ == transfer_cubes(
                transfer_cubes(old(self)@.cube_owners, a_cubes@, b),
                b_cubes@,
                a,
            ),
            *final(self) == (GameState { cube_owners: final(self).cube_owners, ..*old(self) }),
            final(self).wf(),
    {
        broadcast use vstd::set::group_set_axioms;

        let ghost dom0 = old(self)@.cube_owners.dom();
        let n = a_cubes.len();
        for i in 0..n
            invariant
                n == a_cubes@.len(),
                self.cube_owners.wf(),
                self.cube_owners@ == transfer_cubes(
                    old(self)@.cube_owners,
                    a_cubes@.subrange(0, i as int),
                    b,
                ),
                self.cube_owners@.dom() =~= dom0,
                *self == (GameState { cube_owners: self.cube_owners, ..*old(self) }),
        {
            proof {
                lemma_transfer_cubes_step(old(self)@.cube_owners, a_cubes@, i as int, b);
                assert(dom0.contains(a_cubes@[i as int].0));
            }
            self.cube_owners.insert(a_cubes[i].0, b);
        }
        proof {
            assert(a_cubes@.subrange(0, n as int) =~= a_cubes@);
        }
        let m = b_cubes.len();
        for i in 0..m
            invariant
                m == b_cubes@.len(),
                self.cube_owners.wf(),
                self.cube_owners@ == transfer_cubes(
                    transfer_cubes(old(self)@.cube_owners, a_cubes@, b),
                    b_cubes@.subrange(0, i as int),
                    a,
                ),
                self.cube_owners@.dom() =~= dom0,
                *self == (GameState { cube_owners: self.cube_owners, ..*old(self) }),
        {
            proof {
                lemma_transfer_cubes_step(
                    transfer_cubes(old(self)@.cube_owners, a_cubes@, b),
                    b_cubes@,
                    i as int,
                    a,
                );
                assert(dom0.contains(b_cubes@[i as int].0));
            }
            self.cube_owners.insert(b_cubes[i].0, a);
        }
        proof {
            assert(b_cubes@.subrange(0, m as int) =~= b_cubes@);
            assert(self.cube_owners@.dom() == dom0);
        }
    }

    /// Moves the listed colonies of each party to the other.
    #[verifier::loop_isolation(false)]
    fn apply_trade_colonies(
        &mut self,
        a: PlayerID,
        b: PlayerID,
        a_colony: &Vec<ColonyID>,
        b_colony: &Vec<ColonyID>,
    )
        requires
            old(self).wf(),
        ensures
            final(self).colony_owners@ == transfer_colonies(
                transfer_colonies(old(self)@.colony_owners, a_colony@, b),
                b_colony@,
                a,
            ),
            *final(self) == (GameState { colony_owners: final(self).colony_owners, ..*old(self) }),
            final(self).wf(),
    {
        let n = a_colony.len();
        for i in 0..n
            invariant
                n == a_colony@.len(),
                self.colony_owners.wf(),
                self.colony_owners@ == transfer_colonies(
                    old(self)@.colony_owners,
                    a_colony@.subrange(0, i as int),
                    b,
                ),
                *self == (GameState { colony_owners: self.colony_owners, ..*old(self) }),
        {
            proof {
                lemma_transfer_colonies_step(old(self)@.colony_owners, a_colony@, i as int, b);
            }
            self.colony_owners.insert(a_colony[i].0, b);
        }
        proof {
            assert(a_colony@.subrange(0, n as int) =~= a_colony@);
        }
        let m = b_colony.len();
        for i in 0..m
            invariant
                m == b_colony@.len(),
                self.colony_owners.wf(),
                self.colony_owners@ == transfer_colonies(
                    transfer_colonies(old(self)@.colony_owners, a_colony@, b),
                    b_colony@.subrange(0, i as int),
                    a,
                ),
                *self == (GameState { colony_owners: self.colony_owners, ..*old(self) }),
        {
            proof {
                lemma_transfer_colonies_step(
                    transfer_colonies(old(self)@.colony_owners, a_colony@, b),
                    b_colony@,
                    i as int,
                    a,
                );
            }
            self.colony_owners.insert(b_colony[i].0, a);
        }
        proof {
            assert(b_colony@.subrange(0, m as int) =~= b_colony@);
        }
    }

    /// Moves the listed converters of each party to the other; for a
    /// temporary trade the original owners are recorded for later
    /// return.
    #[verifier::loop_isolation(false)]
    fn apply_trade_converters(
        &mut self,
        a: PlayerID,
        b: PlayerID,
        a_converter: &Vec<ConverterID>,
        b_converter: &Vec<ConverterID>,
        permanent: bool,
    )
        requires
            old(self).wf(),
        ensures
            final(self).converter_owners@ == transfer_converters(
                transfer_converters(old(self)@.converter_owners, a_converter@, b),
                b_converter@,
                a,
            ),
            final(self).original_owners@ == if permanent {
                old(self)@.original_owners
            } else {
                transfer_converters(
                    transfer_converters(old(self)@.original_owners, a_converter@, a),
                    b_converter@,
                    b,
                )
            },
            *final(self) == (GameState {
                converter_owners: final(self).converter_owners,
                original_owners: final(self).original_owners,
                ..*old(self)
            }),
            final(self).wf(),
    {
        let n = a_converter.len();
        for i in 0..n
            invariant
                n == a_converter@.len(),
                self.converter_owners.wf(),
                self.converter_owners@ == transfer_converters(
                    old(self)@.converter_owners,
                    a_converter@.subrange(0, i as int),
                    b,
                ),
                *self == (GameState { converter_owners: self.converter_owners, ..*old(self) }),
        {
            proof {
                lemma_transfer_converters_step(
                    old(self)@.converter_owners,
                    a_converter@,
                    i as int,
                    b,
                );
            }
            self.converter_owners.insert(a_converter[i].0, b);
        }
        proof {
            assert(a_converter@.subrange(0, n as int) =~= a_converter@);
        }
        let m = b_converter.len();
        for i in 0..m
            invariant
                m == b_converter@.len(),
                self.converter_owners.wf(),
                self.converter_owners@ == transfer_converters(
                    transfer_converters(old(self)@.converter_owners, a_converter@, b),
                    b_converter@.subrange(0, i as int),
                    a,
                ),
                *self == (GameState { converter_owners: self.converter_owners, ..*old(self) }),
        {
            proof {
                lemma_transfer_converters_step(
                    transfer_converters(old(self)@.converter_owners, a_converter@, b),
                    b_converter@,
                    i as int,
                    a,
                );
            }
            self.converter_owners.insert(b_converter[i].0, a);
        }
        proof {
            assert(b_converter@.subrange(0, m as int) =~= b_converter@);
        }
        if !permanent {
            let ghost owners_now = self.converter_owners;
            let n2 = a_converter.len();
            for i in 0..n2
                invariant
                    n2 == a_converter@.len(),
                    self.original_owners.wf(),
                    self.original_owners@ == transfer_converters(
                        old(self)@.original_owners,
                        a_converter@.subrange(0, i as int),
                        a,
                    ),
                    self.converter_owners == owners_now,
                    *self == (GameState {
                        converter_owners: owners_now,
                        original_owners: self.original_owners,
                        ..*old(self)
                    }),
            {
                proof {
                    lemma_transfer_converters_step(
                        old(self)@.original_owners,
                        a_converter@,
                        i as int,
                        a,
                    );
                }
                self.original_owners.insert(a_converter[i].0, a);
            }
            proof {
                assert(a_converter@.subrange(0, n2 as int) =~= a_converter@);
            }
            let m2 = b_converter.len();
            for i in 0..m2
                invariant
                    m2 == b_converter@.len(),
                    self.original_owners.wf(),
                    self.original_owners@ == transfer_converters(
                        transfer_converters(old(self)@.original_owners, a_converter@, a),
                        b_converter@.subrange(0, i as int),
                        b,
                    ),
                    self.converter_owners == owners_now,
                    *self == (GameState {
                        converter_owners: owners_now,
                        original_owners: self.original_owners,
                        ..*old(self)
                    }),
            {
                proof {
                    lemma_transfer_converters_step(
                        transfer_converters(old(self)@.original_owners, a_converter@, a),
                        b_converter@,
                        i as int,
                        b,
                    );
                }
                self.original_owners.insert(b_converter[i].0, b);
            }
            proof {
                assert(b_converter@.subrange(0, m2 as int) =~= b_converter@);
            }
        }
    }

    /// Applies one already-validated record to the state.
    #[verifier::rlimit(50)]
    fn apply_one(&mut self, rec: &RecordType)
        requires
            old(self).wf(),
            valid_record(old(self)@, *rec),
        ensures
            final(self)@ == apply_record(old(self)@, *rec),
            final(self).wf(),
            same_background(*old(self), *final(self)),
    {
        match rec {
            RecordType::CreatePlayer { player, faction } => {
                self.factions.insert(player.0, *faction);
            },
            RecordType::ChangePhase { to } => {
                self.phase = *to;
            },
            RecordType::TradeCubes { a, b, a_cubes, b_cubes } => {
                self.apply_trade_cubes(*a, *b, a_cubes, b_cubes);
            },
            RecordType::TradeColony { a, b, a_colony, b_colony } => {
                self.apply_trade_colonies(*a, *b, a_colony, b_colony);
            },
            RecordType::TradeConverter { a, b, a_converter, b_converter, permanent } => {
                self.apply_trade_converters(*a, *b, a_converter, b_converter, *permanent);
            },
            RecordType::Bid { player, for_colony, for_colony_kjas, for_tech, for_tech_faderan } => {
                self.player_colony_bid.insert(player.0, (*for_colony, *for_colony_kjas));
                self.player_tech_bid.insert(player.0, (*for_tech, *for_tech_faderan));
            },
            RecordType::TakeColony { player, colony } => {
                let _head = self.colony_bid_order.remove(0);
                proof {
                    assert(self.colony_bid_order@ =~= old(self)@.colony_bid_order.drop_first());
                }
                match colony {
                    Some(i) => {
                        let slot = self.colony_bid_track[*i];
                        match slot {
                            Some(cid) => {
                                self.colony_bid_track.set(*i, None);
                                self.colony_owners.insert(cid.0, *player);
                            },
                            None => {},
                        }
                    },
                    None => {},
                }
            },
            RecordType::TakeResearch { player, tech } => {
                let _head = self.tech_bid_order.remove(0);
                proof {
                    assert(self.tech_bid_order@ =~= old(self)@.tech_bid_order.drop_first());
                }
                match tech {
                    Some(i) => {
                        let slot = self.tech_bid_track[*i];
                        match slot {
                            Some(tid) => {
                                self.tech_bid_track.set(*i, None);
                                self.tech_team_owners.insert(tid.0, *player);
                            },
                            None => {},
                        }
                    },
                    None => {},
                }
            },
            RecordType::InventTech { player, tech, cost } => {
                let _team = self.tech_team_owners.remove(tech.0);
            },
            _ => {
                // no other record kind ever validates, so none reaches
                // application
                proof {
                    assert(false);
                }
            },
        }
    }

    /// Applies a group of records atomically: the caller must have
    /// validated the whole group (each record against the state the
    /// preceding records produce), and every effect then takes hold in
    /// order. Applying a group that was not validated is a contract
    /// violation, not a runtime-recoverable condition.
    #[verifier::loop_isolation(false)]
    pub fn apply(&mut self, group: &RecordGroup)
        requires
            old(self).wf(),
            valid_group(old(self)@, group.rec@),
        ensures
            final(self)@ == apply_all(old(self)@, group.rec@),
            final(self).wf(),
            same_background(*old(self), *final(self)),
    {
        let n = group.rec.len();
        proof {
            assert(group.rec@.subrange(0, 0) =~= Seq::<RecordType>::empty());
            assert(group.rec@.subrange(0, n as int) =~= group.rec@);
        }
        for i in 0..n
            invariant
                n == group.rec@.len(),
                self@ == apply_all(old(self)@, group.rec@.subrange(0, i as int)),
                self.wf(),
                valid_group(self@, group.rec@.subrange(i as int, n as int)),
                same_background(*old(self), *self),
        {
            proof {
                let rest = group.rec@.subrange(i as int, n as int);
                assert(rest[0] == group.rec@[i as int]);
                assert(rest.drop_first() =~= group.rec@.subrange(i + 1, n as int));
                assert(group.rec@.subrange(0, i + 1) =~= group.rec@.subrange(0, i as int).push(
                    group.rec@[i as int],
                ));
                lemma_apply_all_push(
                    old(self)@,
                    group.rec@.subrange(0, i as int),
                    group.rec@[i as int],
                );
            }
            self.apply_one(&group.rec[i]);
        }
        proof {
            assert(group.rec@.subrange(0, n as int) =~= group.rec@);
        }
    }
}

} // verus!
