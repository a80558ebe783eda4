//! Native model of the game engine: numeric player-type and race codes,
//! the resolved game type, and the minimal option set a lobby is opened with.

use vstd::prelude::*;

verus! {

/// Native player-type code for a human-controlled slot.
pub const PLAYER_TYPE_HUMAN: u8 = 2;
/// Native player-type code for a computer added in the lobby.
pub const PLAYER_TYPE_LOBBY_COMPUTER: u8 = 5;
/// Native player-type code for an open (unoccupied, selectable) slot.
pub const PLAYER_TYPE_OPEN: u8 = 6;
/// Native player-type code for a slot that does not exist.
pub const PLAYER_TYPE_NONE: u8 = 0;

/// Native race code for zerg.
pub const RACE_ZERG: u8 = 0;
/// Native race code for terran.
pub const RACE_TERRAN: u8 = 1;
/// Native race code for protoss.
pub const RACE_PROTOSS: u8 = 2;
/// Native race code for a race picked at random by the engine.
pub const RACE_RANDOM: u8 = 6;

/// A resolved game type: the engine's (primary, subtype) pair.
#[derive(Copy, Clone, Debug, PartialEq, Eq, Structural)]
pub struct GameType {
    pub primary: u8,
    pub subtype: u8,
}

impl GameType {
    pub fn melee() -> (r: GameType)
        ensures
            r == (GameType { primary: 0x2, subtype: 0x1 }),
    {
        GameType { primary: 0x2, subtype: 0x1 }
    }

    pub fn ffa() -> (r: GameType)
        ensures
            r == (GameType { primary: 0x3, subtype: 0x1 }),
    {
        GameType { primary: 0x3, subtype: 0x1 }
    }

    pub fn one_v_one() -> (r: GameType)
        ensures
            r == (GameType { primary: 0x4, subtype: 0x1 }),
    {
        GameType { primary: 0x4, subtype: 0x1 }
    }

    pub fn ums() -> (r: GameType)
        ensures
            r == (GameType { primary: 0xa, subtype: 0x1 }),
    {
        GameType { primary: 0xa, subtype: 0x1 }
    }

    pub fn team_melee(players: u8) -> (r: GameType)
        ensures
            r == (GameType { primary: 0xb, subtype: players }),
    {
        GameType { primary: 0xb, subtype: players }
    }

    pub fn team_ffa(players: u8) -> (r: GameType)
        ensures
            r == (GameType { primary: 0xc, subtype: players }),
    {
        GameType { primary: 0xc, subtype: players }
    }

    pub fn top_v_bottom(players: u8) -> (r: GameType)
        ensures
            r == (GameType { primary: 0xf, subtype: players }),
    {
        GameType { primary: 0xf, subtype: players }
    }
}

/// Victory state of one player once the match has ended.
#[derive(Copy, Clone, Debug, PartialEq, Eq, Structural)]
pub enum VictoryState {
    Playing,
    Disconnected,
    Defeat,
    Victory,
}

/// The race a player ended up with, after any engine-side randomization.
#[derive(Copy, Clone, Debug, PartialEq, Eq, Structural)]
pub enum AssignedRace {
    Zerg,
    Terran,
    Protoss,
}

/// The minimal projection of a setup message that the engine consumes to
/// open a lobby.
#[derive(Copy, Clone, Debug, PartialEq, Eq, Structural)]
pub struct LobbyOptions {
    pub game_type: GameType,
    pub turn_rate: u32,
    pub use_legacy_limits: bool,
}

} // verus!
