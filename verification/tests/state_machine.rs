//! The phase state machine, record validation, and record application.

use cubatrice_core::entity::cube::{Cube, CubeID, CubeType};
use cubatrice_core::entity::faction::FactionType;
use cubatrice_core::entity::technology::{TechCost, TechID, Technology};
use cubatrice_core::state::idmap::IdMap;
use cubatrice_core::state::player::PlayerID;
use cubatrice_core::state::record::{RecordGroup, RecordID, RecordType};
use cubatrice_core::entity::colony::ColonyID;
use cubatrice_core::entity::converter::ConverterID;
use cubatrice_core::state::{GameData, GameState, Phase};

fn fresh_state() -> GameState {
    GameState::new(GameData::new())
}

fn add_cube(st: &mut GameState, id: usize, typ: CubeType, owner: usize) {
    st.cubes.insert(id, Cube::new(typ, None));
    st.cube_owners.insert(id, PlayerID(owner));
}

const ALL_PHASES: [Phase; 8] = [
    Phase::Init,
    Phase::Trade,
    Phase::Economy,
    Phase::ColonyBid,
    Phase::TechBid,
    Phase::ZethSteal,
    Phase::Resolution,
    Phase::Finish,
];

fn transition_listed(from: Phase, to: Phase) -> bool {
    matches!(
        (from, to),
        (Phase::Init, Phase::Trade)
            | (Phase::Trade, Phase::Economy)
            | (Phase::Economy, Phase::ColonyBid)
            | (Phase::Economy, Phase::Resolution)
            | (Phase::ColonyBid, Phase::TechBid)
            | (Phase::TechBid, Phase::ZethSteal)
            | (Phase::ZethSteal, Phase::Trade)
            | (Phase::Resolution, Phase::Finish)
    )
}

#[test]
fn phase_transition_table_is_exact() {
    // every listed pair validates, every unlisted pair is rejected
    for from in ALL_PHASES {
        for to in ALL_PHASES {
            let mut st = fresh_state();
            st.phase = from;
            let got = st.validate(&RecordType::ChangePhase { to });
            assert_eq!(got, transition_listed(from, to), "from {:?} to {:?}", from, to);
        }
    }
}

#[test]
fn change_phase_applies_the_new_phase() {
    let mut st = fresh_state();
    st.apply(&RecordGroup {
        id: RecordID(0),
        rec: vec![RecordType::ChangePhase { to: Phase::Trade }],
    });
    assert_eq!(st.phase, Phase::Trade);
    st.apply(&RecordGroup {
        id: RecordID(1),
        rec: vec![
            RecordType::ChangePhase { to: Phase::Economy },
            RecordType::ChangePhase { to: Phase::Resolution },
        ],
    });
    assert_eq!(st.phase, Phase::Resolution);
}

#[test]
fn create_player_rejects_taken_factions() {
    let mut st = fresh_state();
    let first = RecordType::CreatePlayer { player: PlayerID(0), faction: FactionType::CaylionCore };
    assert!(st.validate(&first));
    st.apply(&RecordGroup { id: RecordID(0), rec: vec![first] });
    // same identifier
    assert!(!st.validate(&RecordType::CreatePlayer {
        player: PlayerID(0),
        faction: FactionType::EniEtCore,
    }));
    // same faction for a second player
    assert!(!st.validate(&RecordType::CreatePlayer {
        player: PlayerID(1),
        faction: FactionType::CaylionCore,
    }));
    // the bifurcation counterpart of a taken faction
    assert!(!st.validate(&RecordType::CreatePlayer {
        player: PlayerID(1),
        faction: FactionType::CaylionAlt,
    }));
    // an untouched faction
    assert!(st.validate(&RecordType::CreatePlayer {
        player: PlayerID(1),
        faction: FactionType::EniEtCore,
    }));
}

#[test]
fn trade_cubes_requires_ownership() {
    let mut st = fresh_state();
    add_cube(&mut st, 1, CubeType::Food, 0);
    add_cube(&mut st, 2, CubeType::Power, 0);
    add_cube(&mut st, 3, CubeType::Culture, 1);
    // A offers c1, B offers c3: both own what they offer
    assert!(st.validate(&RecordType::TradeCubes {
        a: PlayerID(0),
        b: PlayerID(1),
        a_cubes: vec![CubeID(1)],
        b_cubes: vec![CubeID(3)],
    }));
    // A offers c3, which A does not own
    assert!(!st.validate(&RecordType::TradeCubes {
        a: PlayerID(0),
        b: PlayerID(1),
        a_cubes: vec![CubeID(3)],
        b_cubes: vec![CubeID(3)],
    }));
    // a party cannot trade with itself
    assert!(!st.validate(&RecordType::TradeCubes {
        a: PlayerID(0),
        b: PlayerID(0),
        a_cubes: vec![CubeID(1)],
        b_cubes: vec![CubeID(2)],
    }));
    // an unknown cube
    assert!(!st.validate(&RecordType::TradeCubes {
        a: PlayerID(0),
        b: PlayerID(1),
        a_cubes: vec![CubeID(9)],
        b_cubes: vec![],
    }));
}

#[test]
fn trade_cubes_applies_ownership_swap() {
    let mut st = fresh_state();
    add_cube(&mut st, 1, CubeType::Food, 0);
    add_cube(&mut st, 2, CubeType::Culture, 1);
    st.apply(&RecordGroup {
        id: RecordID(0),
        rec: vec![RecordType::TradeCubes {
            a: PlayerID(0),
            b: PlayerID(1),
            a_cubes: vec![CubeID(1)],
            b_cubes: vec![CubeID(2)],
        }],
    });
    assert_eq!(st.cube_owners.get(1), Some(&PlayerID(1)));
    assert_eq!(st.cube_owners.get(2), Some(&PlayerID(0)));
    let p0 = st.get_player_cubes(PlayerID(0));
    assert_eq!(p0.culture, 1);
    assert_eq!(p0.food, 0);
}

#[test]
fn player_cube_record_counts_ownership() {
    let mut st = fresh_state();
    add_cube(&mut st, 1, CubeType::Food, 0);
    add_cube(&mut st, 2, CubeType::Food, 0);
    add_cube(&mut st, 3, CubeType::Ship, 0);
    add_cube(&mut st, 4, CubeType::Food, 1);
    let r = st.get_player_cubes(PlayerID(0));
    assert_eq!(r.food, 2);
    assert_eq!(r.ships, 1);
    assert_eq!(r.culture, 0);
    let other = st.get_player_cubes(PlayerID(1));
    assert_eq!(other.food, 1);
    assert_eq!(other.ships, 0);
}

#[test]
fn bids_are_limited_by_ships_and_uniqueness() {
    let mut st = fresh_state();
    st.factions.insert(0, FactionType::CaylionCore);
    for i in 0..3 {
        add_cube(&mut st, i, CubeType::Ship, 0);
    }
    // 2 + 1 ships committed, 3 owned
    let bid = RecordType::Bid {
        player: PlayerID(0),
        for_colony: 2,
        for_colony_kjas: None,
        for_tech: 1,
        for_tech_faderan: None,
    };
    assert!(st.validate(&bid));
    // 3 + 1 exceeds the holdings
    assert!(!st.validate(&RecordType::Bid {
        player: PlayerID(0),
        for_colony: 3,
        for_colony_kjas: None,
        for_tech: 1,
        for_tech_faderan: None,
    }));
    // a second bid in the same round is rejected
    st.apply(&RecordGroup { id: RecordID(0), rec: vec![bid] });
    assert!(!st.validate(&RecordType::Bid {
        player: PlayerID(0),
        for_colony: 0,
        for_colony_kjas: None,
        for_tech: 0,
        for_tech_faderan: None,
    }));
}

#[test]
fn split_bids_are_faction_gated() {
    let mut st = fresh_state();
    st.factions.insert(0, FactionType::KjasCore);
    st.factions.insert(1, FactionType::CaylionCore);
    for i in 0..4 {
        add_cube(&mut st, i, CubeType::Ship, 0);
        add_cube(&mut st, 10 + i, CubeType::Ship, 1);
    }
    // the directorate may split a colony bid whose halves differ by one
    assert!(st.validate(&RecordType::Bid {
        player: PlayerID(0),
        for_colony: 2,
        for_colony_kjas: Some(1),
        for_tech: 1,
        for_tech_faderan: None,
    }));
    // halves differing by two are rejected
    assert!(!st.validate(&RecordType::Bid {
        player: PlayerID(0),
        for_colony: 3,
        for_colony_kjas: Some(1),
        for_tech: 0,
        for_tech_faderan: None,
    }));
    // another faction may not split at all
    assert!(!st.validate(&RecordType::Bid {
        player: PlayerID(1),
        for_colony: 2,
        for_colony_kjas: Some(1),
        for_tech: 0,
        for_tech_faderan: None,
    }));
    // nor split the tech bid without being the falling-light society
    assert!(!st.validate(&RecordType::Bid {
        player: PlayerID(0),
        for_colony: 0,
        for_colony_kjas: None,
        for_tech: 1,
        for_tech_faderan: Some(1),
    }));
}

#[test]
fn take_colony_needs_head_of_order_and_filled_slot() {
    let mut st = fresh_state();
    st.colony_bid_order = vec![PlayerID(2), PlayerID(0)];
    st.colony_bid_track = vec![Some(ColonyID(7)), None];
    // only the head of the bid order may act
    assert!(!st.validate(&RecordType::TakeColony { player: PlayerID(0), colony: Some(0) }));
    assert!(st.validate(&RecordType::TakeColony { player: PlayerID(2), colony: Some(0) }));
    // an emptied slot cannot be taken
    assert!(!st.validate(&RecordType::TakeColony { player: PlayerID(2), colony: Some(1) }));
    // an out-of-range index cannot be taken
    assert!(!st.validate(&RecordType::TakeColony { player: PlayerID(2), colony: Some(5) }));
    // passing is always legal for the head
    assert!(st.validate(&RecordType::TakeColony { player: PlayerID(2), colony: None }));
    st.apply(&RecordGroup {
        id: RecordID(0),
        rec: vec![RecordType::TakeColony { player: PlayerID(2), colony: Some(0) }],
    });
    assert_eq!(st.colony_owners.get(7), Some(&PlayerID(2)));
    assert_eq!(st.colony_bid_track, vec![None, None]);
    assert_eq!(st.colony_bid_order, vec![PlayerID(0)]);
}

#[test]
fn take_research_assigns_the_team() {
    let mut st = fresh_state();
    st.tech_bid_order = vec![PlayerID(1)];
    st.tech_bid_track = vec![Some(TechID(4))];
    assert!(!st.validate(&RecordType::TakeResearch { player: PlayerID(0), tech: None }));
    assert!(st.validate(&RecordType::TakeResearch { player: PlayerID(1), tech: Some(0) }));
    st.apply(&RecordGroup {
        id: RecordID(0),
        rec: vec![RecordType::TakeResearch { player: PlayerID(1), tech: Some(0) }],
    });
    assert_eq!(st.tech_team_owners.get(4), Some(&PlayerID(1)));
    assert_eq!(st.tech_bid_track, vec![None]);
    assert!(st.tech_bid_order.is_empty());
}

fn sample_tech(id: usize) -> Technology {
    Technology {
        id: TechID(id),
        cost: vec![
            TechCost { typ: CubeType::Food, qty: 2 },
            TechCost { typ: CubeType::Power, qty: 1 },
        ],
        name: String::from("sample"),
        invents: Some(String::from("sample converter")),
        tier: 1,
        invent_reward: 1,
    }
}

#[test]
fn invent_tech_needs_team_and_affordable_cost() {
    let mut st = fresh_state();
    st.data.tech.insert(4, sample_tech(4));
    st.tech_team_owners.insert(4, PlayerID(0));
    add_cube(&mut st, 1, CubeType::Food, 0);
    // one food is not enough for the two-food alternate
    assert!(!st.validate(&RecordType::InventTech {
        player: PlayerID(0),
        tech: TechID(4),
        cost: CubeType::Food,
    }));
    add_cube(&mut st, 2, CubeType::Food, 0);
    let invent = RecordType::InventTech {
        player: PlayerID(0),
        tech: TechID(4),
        cost: CubeType::Food,
    };
    assert!(st.validate(&invent));
    // a cost type the card does not list
    assert!(!st.validate(&RecordType::InventTech {
        player: PlayerID(0),
        tech: TechID(4),
        cost: CubeType::Ultratech,
    }));
    // another player does not hold the team
    assert!(!st.validate(&RecordType::InventTech {
        player: PlayerID(1),
        tech: TechID(4),
        cost: CubeType::Food,
    }));
    // an any-small cost aggregates over every small slot
    let mut st2 = fresh_state();
    st2.data.tech.insert(
        5,
        Technology {
            id: TechID(5),
            cost: vec![TechCost { typ: CubeType::AnySmall, qty: 2 }],
            name: String::from("aggregate"),
            invents: None,
            tier: 4,
            invent_reward: 0,
        },
    );
    st2.tech_team_owners.insert(5, PlayerID(0));
    add_cube(&mut st2, 1, CubeType::Food, 0);
    add_cube(&mut st2, 2, CubeType::UnitySmall, 0);
    assert!(st2.validate(&RecordType::InventTech {
        player: PlayerID(0),
        tech: TechID(5),
        cost: CubeType::AnySmall,
    }));
    st.apply(&RecordGroup { id: RecordID(0), rec: vec![invent] });
    assert_eq!(st.tech_team_owners.get(4), None);
}

#[test]
fn unhandled_records_never_validate() {
    let st = fresh_state();
    assert!(!st.validate(&RecordType::UpgradeConverter { conv: ConverterID(0), opt: 0 }));
    assert!(!st.validate(&RecordType::GiveAcknowledgement { player: PlayerID(0) }));
    assert!(!st.validate(&RecordType::License { player: PlayerID(0), tech: TechID(1) }));
    assert!(!st.validate(&RecordType::Retrocontinuity { converter: ConverterID(0) }));
}

#[test]
fn trade_converters_respects_untradable_flags() {
    let mut st = fresh_state();
    st.converter_owners.insert(1, PlayerID(0));
    st.converter_owners.insert(2, PlayerID(1));
    assert!(st.validate(&RecordType::TradeConverter {
        a: PlayerID(0),
        b: PlayerID(1),
        a_converter: vec![ConverterID(1)],
        b_converter: vec![ConverterID(2)],
        permanent: false,
    }));
    st.untradable_converters.insert(1, ());
    assert!(!st.validate(&RecordType::TradeConverter {
        a: PlayerID(0),
        b: PlayerID(1),
        a_converter: vec![ConverterID(1)],
        b_converter: vec![ConverterID(2)],
        permanent: false,
    }));
    // a temporary trade records the original owners
    st.untradable_converters.remove(1);
    st.apply(&RecordGroup {
        id: RecordID(0),
        rec: vec![RecordType::TradeConverter {
            a: PlayerID(0),
            b: PlayerID(1),
            a_converter: vec![ConverterID(1)],
            b_converter: vec![ConverterID(2)],
            permanent: false,
        }],
    });
    assert_eq!(st.converter_owners.get(1), Some(&PlayerID(1)));
    assert_eq!(st.converter_owners.get(2), Some(&PlayerID(0)));
    assert_eq!(st.original_owners.get(1), Some(&PlayerID(0)));
    assert_eq!(st.original_owners.get(2), Some(&PlayerID(1)));
}

#[test]
fn trade_colonies_swaps_ownership() {
    let mut st = fresh_state();
    st.colony_owners.insert(5, PlayerID(0));
    st.colony_owners.insert(6, PlayerID(1));
    let rec = RecordType::TradeColony {
        a: PlayerID(0),
        b: PlayerID(1),
        a_colony: vec![ColonyID(5)],
        b_colony: vec![ColonyID(6)],
    };
    assert!(st.validate(&rec));
    st.apply(&RecordGroup { id: RecordID(0), rec: vec![rec] });
    assert_eq!(st.colony_owners.get(5), Some(&PlayerID(1)));
    assert_eq!(st.colony_owners.get(6), Some(&PlayerID(0)));
}

#[test]
fn id_map_operations() {
    let mut m: IdMap<u32> = IdMap::new();
    assert!(m.is_empty());
    m.insert(3, 30);
    m.insert(5, 50);
    m.insert(3, 31);
    assert_eq!(m.len(), 2);
    assert_eq!(m.get(3), Some(&31));
    assert_eq!(m.get(5), Some(&50));
    assert_eq!(m.get(4), None);
    assert!(m.contains_key(5));
    let mut keys = m.keys();
    keys.sort();
    assert_eq!(keys, vec![3, 5]);
    assert_eq!(m.remove(3), Some(31));
    assert_eq!(m.remove(3), None);
    assert_eq!(m.len(), 1);
}

#[test]
fn replaying_the_same_records_reproduces_the_state() {
    let build = || {
        let mut st = fresh_state();
        add_cube(&mut st, 1, CubeType::Food, 0);
        add_cube(&mut st, 2, CubeType::Culture, 1);
        st
    };
    let group = RecordGroup {
        id: RecordID(0),
        rec: vec![
            RecordType::CreatePlayer { player: PlayerID(0), faction: FactionType::ZethCore },
            RecordType::ChangePhase { to: Phase::Trade },
            RecordType::TradeCubes {
                a: PlayerID(0),
                b: PlayerID(1),
                a_cubes: vec![CubeID(1)],
                b_cubes: vec![CubeID(2)],
            },
        ],
    };
    let mut one = build();
    one.apply(&group);
    let mut two = build();
    two.apply(&group);
    assert_eq!(one.phase, two.phase);
    assert_eq!(one.factions.get(0), two.factions.get(0));
    assert_eq!(one.cube_owners.get(1), two.cube_owners.get(1));
    assert_eq!(one.cube_owners.get(2), two.cube_owners.get(2));
}
