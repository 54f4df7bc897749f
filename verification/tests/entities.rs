//! Cubes, records, items, converters and their valuation, colonies,
//! technologies, relic worlds, paired converters, and decks.

use cubatrice_core::entity::colony::{Colony, ColonyID, ColonyType};
use cubatrice_core::entity::converter::{Arrow, Converter, ConverterKind};
use cubatrice_core::entity::cube::{Cube, CubeRecord, CubeType};
use cubatrice_core::entity::faction::alt_kit::{KitConverter, UpgradeToken};
use cubatrice_core::entity::faction::base_faderan::RelicWorld;
use cubatrice_core::entity::faction::{FactionType, GenericStartingConverter};
use cubatrice_core::entity::technology::{ConverterPrototype, TechID, Technology};
use cubatrice_core::entity::{Item, Token, Upgrade};
use cubatrice_core::state::GameData;
use cubatrice_core::{Deck, Fraction};

fn empty_record() -> CubeRecord {
    CubeRecord {
        food: 0,
        culture: 0,
        industry: 0,
        small_wild: 0,
        biotech: 0,
        power: 0,
        information: 0,
        large_wild: 0,
        ultratech: 0,
        ships: 0,
        points: 0,
    }
}

#[test]
fn cube_type_values() {
    assert_eq!(CubeType::Food.value(), Fraction::new(1, 1));
    assert_eq!(CubeType::Ship.value(), Fraction::new(1, 1));
    assert_eq!(CubeType::Power.value(), Fraction::new(3, 2));
    assert_eq!(CubeType::Ultratech.value(), Fraction::new(3, 1));
    assert_eq!(CubeType::VictoryPoint.value(), Fraction::new(3, 1));
}

#[test]
fn virtual_cube_types() {
    assert!(CubeType::AnySmall.is_virtual());
    assert!(CubeType::AnyLargeNonUnity.is_virtual());
    assert!(!CubeType::Food.is_virtual());
    assert!(!CubeType::UnityLarge.is_virtual());
}

#[test]
fn cube_type_matching() {
    assert!(CubeType::Food.matches(CubeType::Food));
    assert!(CubeType::Food.matches(CubeType::UnitySmall));
    assert!(!CubeType::Food.matches(CubeType::Culture));
    assert!(CubeType::AnySmall.matches(CubeType::UnitySmall));
    assert!(!CubeType::AnySmallNonUnity.matches(CubeType::UnitySmall));
    assert!(CubeType::Power.matches(CubeType::UnityLarge));
    assert!(CubeType::AnyLarge.matches(CubeType::Biotech));
    assert!(!CubeType::AnyLarge.matches(CubeType::Food));
    assert!(!CubeType::Ship.matches(CubeType::Food));
}

#[test]
fn record_split_recomposes() {
    // a record of net changes splits into nonnegative halves with
    // pos + (-neg) == r
    let r = CubeRecord { food: 3, culture: -2, power: -1, ships: 4, ..empty_record() };
    let (pos, neg) = r.split();
    assert_eq!(pos, CubeRecord { food: 3, ships: 4, ..empty_record() });
    assert_eq!(neg, CubeRecord { culture: 2, power: 1, ..empty_record() });
    assert_eq!(pos.add(neg.neg()), r);
}

#[test]
fn record_counts_aggregate_wild_categories() {
    let r = CubeRecord { food: 1, culture: 2, small_wild: 3, power: 1, biotech: 1, ..empty_record() };
    assert_eq!(r.count_type(CubeType::Food), 1);
    assert_eq!(r.count_type(CubeType::AnySmallNonUnity), 3);
    assert_eq!(r.count_type(CubeType::AnySmall), 6);
    assert_eq!(r.count_type(CubeType::AnyLargeNonUnity), 2);
    assert_eq!(r.count_type(CubeType::AnyLarge), 2);
}

#[test]
fn record_from_cube_list() {
    let cubes = vec![
        Cube::new(CubeType::Food, None),
        Cube::new(CubeType::Food, None),
        Cube::new(CubeType::Ship, None),
        Cube::new(CubeType::Ultratech, None),
        // virtual types are never stored
        Cube::new(CubeType::AnySmall, None),
    ];
    let r = CubeRecord::from_cubes(&cubes);
    assert_eq!(r.food, 2);
    assert_eq!(r.ships, 1);
    assert_eq!(r.ultratech, 1);
    assert_eq!(r.count_type(CubeType::AnySmall), 2);
}

#[test]
fn record_valuation() {
    let r = CubeRecord { food: 1, power: 1, ultratech: 1, ..empty_record() };
    // 1 + 3/2 + 3 == 11/2
    assert_eq!(r.value(), Fraction::new(11, 2));
    // 1/6 + 1/4 + 1/2 == 11/12
    assert_eq!(r.vp_value(), Fraction::new(11, 12));
}

#[test]
fn record_value_ordering() {
    let small = CubeRecord { food: 2, ..empty_record() };
    let large = CubeRecord { ultratech: 1, ..empty_record() };
    assert!(small.value_lt(&large));
    assert!(!large.value_lt(&small));
    assert!(!small.value_lt(&small));
}

#[test]
fn reference_store_lookups() {
    let mut data = GameData::new();
    data.colony.insert(7, test_colony(7, "verdant", None));
    data.tech.insert(
        3,
        Technology {
            id: TechID(3),
            cost: vec![],
            name: String::from("lore"),
            invents: None,
            tier: 4,
            invent_reward: 2,
        },
    );
    data.tech_prototype.insert(3, proto(3, vec![], vec![]));
    data.tech_converter.push((FactionType::KitCore, vec![proto(1, vec![], vec![])]));
    data.start_resources.push((FactionType::KitCore, vec![Item::Cubes(CubeType::Food, 3)]));
    assert!(data.lookup_colony(ColonyID(7)).is_some());
    assert!(data.lookup_colony(ColonyID(8)).is_none());
    assert_eq!(data.lookup_tech(TechID(3)).unwrap().invent_reward, 2);
    assert!(data.lookup_prototype(TechID(3)).is_some());
    assert_eq!(data.lookup_faction_converters(FactionType::KitCore).unwrap().len(), 1);
    assert!(data.lookup_faction_converters(FactionType::ZethCore).is_none());
    assert_eq!(
        data.lookup_starting_resources(FactionType::KitCore).unwrap()[0],
        Item::Cubes(CubeType::Food, 3)
    );
}

#[test]
fn token_supply_caps() {
    assert_eq!(Token::Envoy.quantity_limited(), Some(7));
    assert_eq!(Token::CrossColonization.quantity_limited(), Some(3));
    assert_eq!(Token::Acknowledgement.quantity_limited(), None);
    assert_eq!(Token::Regret.quantity_limited(), None);
    assert_eq!(Token::Service.quantity_limited(), Some(17));
    assert_eq!(Token::Factory(CubeType::Food).quantity_limited(), Some(3));
}

#[test]
fn tech_upgrade_pairings() {
    assert_eq!(TechID(1).upgrades_with(), Some((TechID(2), TechID(6))));
    assert_eq!(TechID(14).upgrades_with(), Some((TechID(9), TechID(13))));
    assert_eq!(TechID(21).upgrades_with(), Some((TechID(15), TechID(17))));
    assert_eq!(TechID(22).upgrades_with(), None);
}

fn proto(id: usize, input: Vec<Item>, output: Vec<Item>) -> ConverterPrototype {
    ConverterPrototype {
        id: TechID(id),
        name: String::from("proto"),
        conv: Converter { color: Arrow::White, input, output },
    }
}

#[test]
fn prototype_upgrade_surface() {
    let p = proto(3, vec![], vec![]);
    assert!(p.upgradable());
    assert_eq!(p.upgrade_opts(), Some(2));
    assert_eq!(p.upgrade_cost(0), Some(Upgrade::ConverterCard(TechID(4))));
    assert_eq!(p.upgrade_cost(1), Some(Upgrade::ConverterCard(TechID(5))));
    assert_eq!(p.upgrade_cost(2), None);
    let late = proto(30, vec![], vec![]);
    assert!(!late.upgradable());
    assert_eq!(late.upgrade_opts(), None);
    assert_eq!(late.upgrade_cost(0), None);
    // the pairing table starts at one: an out-of-table identifier has
    // no options and no cost
    let zero = proto(0, vec![], vec![]);
    assert!(!zero.upgradable());
    assert_eq!(zero.upgrade_opts(), None);
    assert_eq!(zero.upgrade_cost(0), None);
    assert_eq!(zero.upgrade_token(), None);
}

#[test]
fn dispatcher_delegates_upgrades() {
    // tokens come through the dispatcher per kind
    assert_eq!(
        ConverterKind::Prototype(proto(3, vec![], vec![])).upgrade_token(),
        Some(UpgradeToken::TierOne)
    );
    assert_eq!(
        ConverterKind::Prototype(proto(9, vec![], vec![])).upgrade_token(),
        Some(UpgradeToken::TierTwo)
    );
    assert_eq!(ConverterKind::Prototype(proto(0, vec![], vec![])).upgrade_token(), None);
    assert_eq!(
        ConverterKind::Prototype(proto(3, vec![], vec![])).upgrade_cost(1),
        Some(Upgrade::ConverterCard(TechID(5)))
    );
    // a colony upgraded through the dispatcher swaps in its sibling
    let mut data = GameData::new();
    data.colony.insert(7, test_colony(7, "verdant", Some((CubeType::Power, 2))));
    data.colony.insert(107, test_colony(107, "verdant prime", None));
    let mut k = ConverterKind::Colony(test_colony(7, "verdant", Some((CubeType::Power, 2))));
    k.upgrade(&data, 0);
    match k {
        ConverterKind::Colony(c) => assert_eq!(c, test_colony(107, "verdant prime", None)),
        _ => panic!("the dispatcher must preserve the kind"),
    }
}

#[test]
fn raw_valuation_of_converter_items() {
    let p = proto(
        1,
        vec![Item::Cubes(CubeType::Food, 1), Item::Cubes(CubeType::Power, 1)],
        vec![Item::Cubes(CubeType::Ultratech, 2)],
    );
    let k = ConverterKind::Prototype(p);
    assert_eq!(k.input_value(), Fraction::new(5, 2));
    assert_eq!(k.output_value(), Fraction::new(6, 1));
    assert!(!k.free());
}

#[test]
fn non_cube_items_contribute_nothing() {
    let p = proto(
        1,
        vec![Item::Colony(ColonyType::Any), Item::Cubes(CubeType::Food, 2)],
        vec![Item::Token(Token::Envoy)],
    );
    let k = ConverterKind::Prototype(p);
    assert_eq!(k.input_value(), Fraction::new(2, 1));
    assert_eq!(k.output_value(), Fraction::new(0, 1));
}

#[test]
fn no_discount_on_the_last_turn() {
    // with one turn left the adjusted valuation equals the raw one,
    // whatever the rate
    let p = proto(
        1,
        vec![Item::Cubes(CubeType::Food, 1), Item::Cubes(CubeType::Ship, 2)],
        vec![],
    );
    let k = ConverterKind::Prototype(p);
    let raw = k.input_value();
    assert_eq!(k.input_value_adjusted(Fraction::new(7, 5), 1), raw);
    assert_eq!(k.input_value_adjusted(Fraction::new(3, 1), 1), raw);
}

#[test]
fn ships_discount_with_remaining_turns() {
    // the discount factor divides the ship contribution once per extra
    // remaining turn; commodity cubes stay at face value
    let ships = ConverterKind::Prototype(proto(1, vec![Item::Cubes(CubeType::Ship, 2)], vec![]));
    let two_turns = ships.input_value_adjusted(Fraction::new(7, 5), 2);
    assert_eq!(two_turns, Fraction::new(10, 7));
    let food = ConverterKind::Prototype(proto(1, vec![Item::Cubes(CubeType::Food, 1)], vec![]));
    assert_eq!(food.input_value_adjusted(Fraction::new(7, 5), 2), Fraction::new(1, 1));
}

#[test]
fn victory_points_weigh_six_in_adjusted_valuation() {
    let vp = ConverterKind::Prototype(proto(1, vec![Item::Cubes(CubeType::VictoryPoint, 1)], vec![]));
    assert_eq!(vp.input_value(), Fraction::new(3, 1));
    assert_eq!(vp.input_value_adjusted(Fraction::new(7, 5), 1), Fraction::new(6, 1));
}

fn test_colony(id: usize, name: &str, up_cost: Option<(CubeType, usize)>) -> Colony {
    Colony {
        name: String::from(name),
        id: ColonyID(id),
        typ: ColonyType::Jungle,
        conv: Converter {
            color: Arrow::White,
            input: vec![],
            output: vec![Item::Cubes(CubeType::Food, if id >= 100 { 2 } else { 1 })],
        },
        up_cost,
    }
}

#[test]
fn colony_upgrade_replaces_definition() {
    let mut data = GameData::new();
    data.colony.insert(7, test_colony(7, "verdant", Some((CubeType::Power, 2))));
    data.colony.insert(107, test_colony(107, "verdant prime", None));
    let mut c = test_colony(7, "verdant", Some((CubeType::Power, 2)));
    assert!(c.upgradable());
    assert_eq!(c.upgrade_opts(), Some(1));
    assert_eq!(c.upgrade_cost(0), Some(Upgrade::Cubes(CubeType::Power, 2)));
    assert_eq!(c.upgrade_cost(1), None);
    // after the two power cubes were paid by the caller, the upgrade
    // swaps in colony 107's definition wholesale
    c.upgrade(&data, 0);
    let want = test_colony(107, "verdant prime", None);
    assert_eq!(c, want);
    // upgrading again is a no-op: the identifier is already offset
    c.upgrade(&data, 0);
    assert_eq!(c, want);
    assert_eq!(c.upgrade_token(), None);
}

#[test]
fn colony_upgrade_ignores_invalid_option() {
    let mut data = GameData::new();
    data.colony.insert(7, test_colony(7, "verdant", Some((CubeType::Power, 2))));
    data.colony.insert(107, test_colony(107, "verdant prime", None));
    let mut c = test_colony(7, "verdant", Some((CubeType::Power, 2)));
    c.upgrade(&data, 3);
    assert_eq!(c, test_colony(7, "verdant", Some((CubeType::Power, 2))));
}

fn starting_converter(upgrade_count: usize) -> GenericStartingConverter {
    let mut upgrades = Vec::new();
    for i in 0..upgrade_count {
        upgrades.push((
            Upgrade::Cubes(CubeType::Power, i + 1),
            Converter {
                color: Arrow::White,
                input: vec![],
                output: vec![Item::Cubes(CubeType::Ultratech, 1)],
            },
        ));
    }
    GenericStartingConverter {
        conv: Converter {
            color: Arrow::White,
            input: vec![Item::Cubes(CubeType::Food, 1)],
            output: vec![Item::Cubes(CubeType::Industry, 1)],
        },
        upgrades,
    }
}

fn kit(l_upgrades: usize, r_upgrades: usize) -> KitConverter {
    let mut k = KitConverter {
        l_conv: starting_converter(l_upgrades),
        r_conv: starting_converter(r_upgrades),
        output_cache: Vec::new(),
    };
    k.update_cache();
    k
}

#[test]
fn kit_pair_reports_four_options_when_both_sides_upgrade() {
    let k = kit(2, 2);
    assert!(k.upgradable());
    assert_eq!(k.upgrade_opts(), Some(4));
}

#[test]
fn kit_pair_collapses_numbering_when_left_is_fixed() {
    let k = kit(0, 2);
    assert_eq!(k.upgrade_opts(), Some(2));
    // option 0 addresses the right side's option 0
    assert_eq!(k.upgrade_cost(0), Some(Upgrade::Cubes(CubeType::Power, 1)));
    assert_eq!(k.upgrade_cost(1), Some(Upgrade::Cubes(CubeType::Power, 2)));
    assert_eq!(k.upgrade_cost(2), None);
    let done = kit(0, 0);
    assert_eq!(done.upgrade_opts(), None);
    assert!(!done.upgradable());
}

#[test]
fn kit_pair_concatenates_outputs_and_upgrades_in_place() {
    let mut k = kit(2, 2);
    assert_eq!(k.input().clone(), vec![Item::Cubes(CubeType::Food, 1)]);
    assert_eq!(
        k.output().clone(),
        vec![Item::Cubes(CubeType::Industry, 1), Item::Cubes(CubeType::Industry, 1)]
    );
    // upgrade option 2 addresses the right side's option 0
    k.upgrade(2);
    assert_eq!(
        k.output().clone(),
        vec![Item::Cubes(CubeType::Industry, 1), Item::Cubes(CubeType::Ultratech, 1)]
    );
    assert_eq!(k.upgrade_opts(), Some(2));
    assert_eq!(k.upgrade_token(), None);
    assert_eq!(k.color(), Arrow::White);
}

#[test]
fn relic_worlds_are_fixed_and_never_upgrade() {
    let t = RelicWorld::TransmutiveDecomposer;
    assert_eq!(t.input(), vec![Item::Cubes(CubeType::Ship, 2)]);
    assert_eq!(t.output().len(), 4);
    assert_eq!(t.color(), Arrow::White);
    assert_eq!(RelicWorld::ParadiseConverter.color(), Arrow::Purple);
    assert!(!t.upgradable());
    assert_eq!(t.upgrade_opts(), None);
    assert_eq!(t.upgrade_cost(0), None);
    assert_eq!(t.upgrade_token(), None);
    let mut p = RelicWorld::GiftOfTheDuruntai;
    p.upgrade(0);
    assert_eq!(p, RelicWorld::GiftOfTheDuruntai);
    assert_eq!(p.input(), Vec::<Item>::new());
}

#[test]
fn faction_static_tables() {
    assert_eq!(FactionType::KitCore.bid_tiebreaker(), Fraction::new(100, 1));
    assert_eq!(FactionType::UnityAlt.bid_tiebreaker(), Fraction::new(22, 7));
    assert_eq!(FactionType::FaderanAlt.bid_tiebreaker(), Fraction::new(-1, 1));
    assert_eq!(FactionType::KjasCore.colony_support(), 6);
    assert_eq!(FactionType::ImdrilAlt.colony_support(), 0);
    assert_eq!(FactionType::KitCore.difficulty(), 1);
    assert_eq!(FactionType::CaylionAlt.impact(), 3);
    assert_eq!(FactionType::KjasCore.impact(), 0);
    assert_eq!(FactionType::ZethCore.name(), "Zeth Anocracy");
    assert_eq!(FactionType::CaylionCore.name(), "Caylion Plutocracy");
    assert_eq!(FactionType::FaderanAlt.name(), "Society of Falling Light");
    assert_ne!(FactionType::ImdrilCore.name(), FactionType::YengiiCore.name());
    assert_eq!(FactionType::ZethAlt.short_name(), "Zeth");
    assert_eq!(FactionType::CaylionCore.short_name(), FactionType::CaylionAlt.short_name());
    assert_ne!(FactionType::CaylionCore.short_name(), FactionType::KjasCore.short_name());
}

#[test]
fn faction_bifurcation_is_symmetric() {
    assert_eq!(FactionType::CaylionCore.bifurcate(), FactionType::CaylionAlt);
    assert_eq!(FactionType::CaylionAlt.bifurcate(), FactionType::CaylionCore);
    let core = FactionType::core_factions();
    let alts = FactionType::bifurcation();
    assert_eq!(core.len(), 9);
    assert_eq!(alts.len(), 9);
    for f in core.iter().chain(alts.iter()) {
        assert_eq!(f.bifurcate().bifurcate(), *f);
        assert_ne!(f.bifurcate(), *f);
    }
}

#[test]
fn deck_draw_and_stacking() {
    let mut d = Deck::new(vec![1u32, 2, 3]);
    assert_eq!(d.len(), 3);
    assert_eq!(d.peek(), Some(&1));
    assert_eq!(d.draw_next(), Some(1));
    d.add_to_top(9);
    d.add_to_bottom(8);
    assert_eq!(d.draw_next(), Some(9));
    assert_eq!(d.draw_next(), Some(2));
    assert_eq!(d.draw_next(), Some(3));
    assert_eq!(d.draw_next(), Some(8));
    assert_eq!(d.draw_next(), None);
}

#[test]
fn deck_draw_matching_rotates_rejects() {
    let mut d = Deck::new(vec![1u32, 2, 3, 4]);
    let drawn = d.draw_next_matches(|x: &u32| *x % 2 == 0);
    assert_eq!(drawn, Some(2));
    // the rejected leading card went to the bottom
    assert_eq!(d.draw_next(), Some(3));
    assert_eq!(d.draw_next(), Some(4));
    assert_eq!(d.draw_next(), Some(1));
}

#[test]
fn deck_draw_matching_gives_up_after_full_cycle() {
    let mut d = Deck::new(vec![1u32, 3, 5]);
    assert_eq!(d.draw_next_matches(|x: &u32| *x % 2 == 0), None);
    assert_eq!(d.len(), 3);
}

#[test]
fn shuffled_deck_keeps_the_same_cards() {
    let items: Vec<u32> = (0..50).collect();
    let mut d = Deck::new_shuffled(items.clone());
    assert_eq!(d.len(), items.len());
    let mut out = Vec::new();
    while let Some(x) = d.draw_next() {
        out.push(x);
    }
    out.sort();
    assert_eq!(out, items);
}
