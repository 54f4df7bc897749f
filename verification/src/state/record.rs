//! Records: the tagged-union vocabulary of legal mutating actions.
//! Records are the only way the game state changes; each is validated
//! against the current state before being accepted.

use crate::entity::colony::ColonyID;
use crate::entity::converter::ConverterID;
use crate::entity::cube::{CubeID, CubeType};
use crate::entity::faction::FactionType;
use crate::entity::technology::TechID;
use crate::state::player::PlayerID;
use crate::state::Phase;
use vstd::prelude::*;

verus! {

/// Transparent type for referring to records.
#[derive(Clone, Copy, Debug, PartialEq, Eq, Hash, Structural)]
pub struct RecordID(pub usize);

/// A record of a game event used to modify game state.
#[derive(Clone, Debug, PartialEq, Eq)]
pub enum RecordType {
    /// Cube portion of a trade: transfers cube ownership between players.
    TradeCubes {
        /// Player 'A' in the trade.
        a: PlayerID,
        /// Player 'B' in the trade.
        b: PlayerID,
        /// Cubes (currently) owned by A, transferred to B.
        a_cubes: Vec<CubeID>,
        /// Cubes (currently) owned by B, transferred to A.
        b_cubes: Vec<CubeID>,
    },
    /// Colony portion of a trade: transfers colony ownership.
    TradeColony {
        a: PlayerID,
        b: PlayerID,
        /// Colonies (currently) owned by A, transferred to B.
        a_colony: Vec<ColonyID>,
        /// Colonies (currently) owned by B, transferred to A.
        b_colony: Vec<ColonyID>,
    },
    /// Converter portion of a trade: transfers converter ownership,
    /// temporarily unless marked permanent.
    TradeConverter {
        a: PlayerID,
        b: PlayerID,
        a_converter: Vec<ConverterID>,
        b_converter: Vec<ConverterID>,
        /// Whether the trade is permanent or temporary.
        permanent: bool,
    },
    /// Creates a player with a given faction.
    CreatePlayer { player: PlayerID, faction: FactionType },
    /// Changes the current game phase to the specified phase, which must
    /// legally follow the current phase.
    ChangePhase { to: Phase },
    /// A player's bid for colonies and tech teams, made at the same
    /// time. The Kjas directorate may split its colony bid in two, and
    /// the falling-light society its tech bid.
    Bid {
        player: PlayerID,
        for_colony: usize,
        for_colony_kjas: Option<usize>,
        for_tech: usize,
        for_tech_faderan: Option<usize>,
    },
    /// A player taking a colony after bidding; `None` is a pass,
    /// otherwise an index into the colony bid track.
    TakeColony { player: PlayerID, colony: Option<usize> },
    /// A player taking a research team after bidding; `None` is a pass,
    /// otherwise an index into the tech bid track.
    TakeResearch { player: PlayerID, tech: Option<usize> },
    /// A player inventing a technology by paying one of its alternate
    /// costs, chosen by cube type.
    InventTech { player: PlayerID, tech: TechID, cost: CubeType },
    /// Upgrades a converter along one of its options.
    UpgradeConverter { conv: ConverterID, opt: usize },
    /// Hands an acknowledgement token to a player.
    GiveAcknowledgement { player: PlayerID },
    /// The Yengii player licensing a technology to another player.
    License { player: PlayerID, tech: TechID },
    /// Applies a retrocontinuity token to a converter, producing its
    /// outputs during the trade phase instead of the economy phase.
    Retrocontinuity { converter: ConverterID },
}

/// One or more records bundled under one ID: a single player action may
/// decompose into multiple primitive effects that must apply together
/// or not at all.
#[derive(Clone, Debug, PartialEq, Eq)]
pub struct RecordGroup {
    pub id: RecordID,
    pub rec: Vec<RecordType>,
}

} // verus!
