//! The inbound match-setup schema: the roster entry type with its
//! classification into native player-type and race codes, the map
//! descriptor, the full setup message, the game-type resolver, and the
//! projection into lobby options.

use vstd::prelude::*;
use vstd::string::StringExecFns;

use crate::bw::{
    GameType, LobbyOptions, PLAYER_TYPE_HUMAN, PLAYER_TYPE_LOBBY_COMPUTER, PLAYER_TYPE_NONE,
    PLAYER_TYPE_OPEN, RACE_PROTOSS, RACE_RANDOM, RACE_TERRAN, RACE_ZERG,
};

verus! {

/// True when the string equals the literal, by character sequence.
pub(crate) fn string_is(s: &String, lit: &str) -> (r: bool)
    ensures
        r == (s@ == lit@),
{
    let owned: String = <String as StringExecFns>::from_str(lit);
    *s == owned
}

/// Opaque identifier of one roster entry, unique within a setup message;
/// the join key between roster entries and route assignments.
#[derive(Clone, Debug, PartialEq, Eq, Hash)]
pub struct LobbyPlayerId(pub String);

/// One declared participant slot in a match setup message.
#[derive(Clone, Debug, PartialEq, Eq)]
pub struct PlayerInfo {
    pub id: LobbyPlayerId,
    pub name: String,
    /// Textual race tag; absent or unrecognized degrades to `RACE_RANDOM`.
    pub race: Option<String>,
    /// Backend user id, present for human participants.
    pub user_id: Option<u32>,
    /// Native slot index. Only meaningful for user-map-settings games; for
    /// other game types the index equals the roster position, and either way
    /// it becomes stale once the engine randomizes slots.
    pub player_id: Option<u8>,
    pub team_id: u8,
    /// Textual player type; may carry host-application-specific tags (such
    /// as an observer) that the engine itself has no code for.
    pub player_type: String,
    /// Sender-supplied native type id; carried verbatim, not re-derived.
    pub player_type_id: u8,
}

/// The native player-type code a textual type tag resolves to: a closed,
/// total mapping with `PLAYER_TYPE_NONE` as the fallback bucket for
/// forward-compatible tags this binding does not know.
pub open spec fn spec_player_type_code(tag: Seq<char>) -> u8 {
    if tag == "human"@ || tag == "observer"@ {
        PLAYER_TYPE_HUMAN
    } else if tag == "computer"@ {
        PLAYER_TYPE_LOBBY_COMPUTER
    } else if tag == "controlledOpen"@ || tag == "controlledClosed"@ || tag == "open"@
        || tag == "closed"@ {
        PLAYER_TYPE_OPEN
    } else {
        PLAYER_TYPE_NONE
    }
}

/// The native race code a textual race tag resolves to: a closed, total
/// mapping with `RACE_RANDOM` as the fallback for an absent or
/// unrecognized tag.
pub open spec fn spec_race_code(race: Option<Seq<char>>) -> u8 {
    match race {
        Some(r) => {
            if r == "z"@ {
                RACE_ZERG
            } else if r == "t"@ {
                RACE_TERRAN
            } else if r == "p"@ {
                RACE_PROTOSS
            } else {
                RACE_RANDOM
            }
        },
        None => RACE_RANDOM,
    }
}

/// Every textual type tag resolves to one of the four native player-type
/// codes: the mapping is total and never fails.
pub proof fn lemma_player_type_total(tag: Seq<char>)
    ensures
        spec_player_type_code(tag) == PLAYER_TYPE_HUMAN
            || spec_player_type_code(tag) == PLAYER_TYPE_LOBBY_COMPUTER
            || spec_player_type_code(tag) == PLAYER_TYPE_OPEN
            || spec_player_type_code(tag) == PLAYER_TYPE_NONE,
{
}

/// Every textual race tag, present or absent, resolves to one of the four
/// native race codes: the mapping is total and never fails.
pub proof fn lemma_race_total(race: Option<Seq<char>>)
    ensures
        spec_race_code(race) == RACE_ZERG || spec_race_code(race) == RACE_TERRAN
            || spec_race_code(race) == RACE_PROTOSS || spec_race_code(race) == RACE_RANDOM,
{
}

impl PlayerInfo {
    /// Returns true for non-observing human players.
    pub fn is_human(&self) -> (r: bool)
        ensures
            r == (self.player_type@ == "human"@),
    {
        string_is(&self.player_type, "human")
    }

    pub fn is_observer(&self) -> (r: bool)
        ensures
            r == (self.player_type@ == "observer"@),
    {
        string_is(&self.player_type, "observer")
    }

    pub fn bw_player_type(&self) -> (r: u8)
        ensures
            r == spec_player_type_code(self.player_type@),
    {
        if string_is(&self.player_type, "human") || string_is(&self.player_type, "observer") {
            PLAYER_TYPE_HUMAN
        } else if string_is(&self.player_type, "computer") {
            PLAYER_TYPE_LOBBY_COMPUTER
        } else if string_is(&self.player_type, "controlledOpen")
            || string_is(&self.player_type, "controlledClosed")
            || string_is(&self.player_type, "open") || string_is(&self.player_type, "closed") {
            PLAYER_TYPE_OPEN
        } else {
            PLAYER_TYPE_NONE
        }
    }

    pub fn bw_race(&self) -> (r: u8)
        ensures
            r == spec_race_code(match self.race {
                Some(s) => Some(s@),
                None => None,
            }),
    {
        match &self.race {
            Some(s) => {
                if string_is(s, "z") {
                    RACE_ZERG
                } else if string_is(s, "t") {
                    RACE_TERRAN
                } else if string_is(s, "p") {
                    RACE_PROTOSS
                } else {
                    RACE_RANDOM
                }
            },
            None => RACE_RANDOM,
        }
    }
}

/// Race choice declared for one slot of a map-embedded force, in
/// user-map-settings games.
#[derive(Copy, Clone, Debug, PartialEq, Eq, Structural)]
pub enum UmsLobbyRace {
    Zerg,
    Terran,
    Protoss,
    Random,
    Any,
}

/// One slot inside a map-embedded force: native slot index plus the race
/// the map fixes for it.
#[derive(Copy, Clone, Debug, PartialEq, Eq, Structural)]
pub struct MapForcePlayer {
    pub id: u8,
    pub race: UmsLobbyRace,
}

/// One map-embedded force: a team grouping fixed by the map itself.
#[derive(Clone, Debug, PartialEq, Eq)]
pub struct MapForce {
    pub players: Vec<MapForcePlayer>,
}

/// Map metadata embedded in a live-game descriptor.
#[derive(Clone, Debug, PartialEq, Eq)]
pub struct MapData {
    pub height: u16,
    pub width: u16,
    pub ums_slots: u8,
    pub slots: u8,
    pub tileset: u16,
    pub ums_forces: Vec<MapForce>,
    pub is_eud: bool,
}

/// The map descriptor of a setup message. One type carries two mutually
/// exclusive shapes: a replay (`is_replay` set, most other fields absent)
/// and a live game (hash and metadata populated). The shape is told apart
/// by the `is_replay` flag alone, never by which other fields happen to be
/// present.
#[derive(Clone, Debug, PartialEq, Eq)]
pub struct MapInfo {
    pub is_replay: Option<bool>,
    pub hash: Option<String>,
    pub map_data: Option<MapData>,
    pub name: Option<String>,
    pub path: Option<String>,
}

/// The full inbound setup message, validated; constructed once per match
/// attempt and read-only thereafter.
#[derive(Clone, Debug, PartialEq, Eq)]
pub struct GameSetupInfo {
    pub name: String,
    pub map: MapInfo,
    pub map_path: String,
    /// Textual game-type tag; resolved by `game_type`.
    pub game_type: String,
    /// Numeric subtype, required by the team-based game types.
    pub game_sub_type: Option<u8>,
    pub slots: Vec<PlayerInfo>,
    pub host: PlayerInfo,
    pub disable_alliance_changes: Option<bool>,
    pub use_legacy_limits: Option<bool>,
    pub turn_rate: Option<u32>,
    pub user_latency: Option<u32>,
    pub seed: u32,
    /// Correlation id joining this setup to its eventual results report;
    /// generated upstream, carried verbatim.
    pub game_id: String,
    pub result_code: Option<String>,
    pub server_url: String,
}

/// The canonical (primary, subtype) pair a textual game-type tag resolves
/// to. The team-based tags require a numeric subtype: its absence is a
/// derivation failure, not a default. An unrecognized tag fails the same
/// way; the caller decides fallback policy.
pub open spec fn spec_resolve_game_type(tag: Seq<char>, sub: Option<u8>) -> Option<GameType> {
    if tag == "melee"@ {
        Some(GameType { primary: 0x2, subtype: 0x1 })
    } else if tag == "ffa"@ {
        Some(GameType { primary: 0x3, subtype: 0x1 })
    } else if tag == "oneVOne"@ {
        Some(GameType { primary: 0x4, subtype: 0x1 })
    } else if tag == "ums"@ {
        Some(GameType { primary: 0xa, subtype: 0x1 })
    } else if tag == "teamMelee"@ {
        match sub {
            Some(s) => Some(GameType { primary: 0xb, subtype: s }),
            None => None,
        }
    } else if tag == "teamFfa"@ {
        match sub {
            Some(s) => Some(GameType { primary: 0xc, subtype: s }),
            None => None,
        }
    } else if tag == "topVBottom"@ {
        match sub {
            Some(s) => Some(GameType { primary: 0xf, subtype: s }),
            None => None,
        }
    } else {
        None
    }
}

/// The lobby options a setup message projects to: resolved game type with
/// the fixed fallback pair on derivation failure, turn rate defaulting to
/// zero (engine default), legacy limits defaulting to off.
pub open spec fn spec_lobby_options(setup: GameSetupInfo) -> LobbyOptions {
    LobbyOptions {
        game_type: match spec_resolve_game_type(setup.game_type@, setup.game_sub_type) {
            Some(gt) => gt,
            None => GameType { primary: 0x2, subtype: 0x1 },
        },
        turn_rate: match setup.turn_rate {
            Some(t) => t,
            None => 0,
        },
        use_legacy_limits: match setup.use_legacy_limits {
            Some(l) => l,
            None => false,
        },
    }
}

impl GameSetupInfo {
    /// A setup message describes a replay exactly when its map descriptor
    /// carries `is_replay = true`; any other field is ignored for this.
    pub fn is_replay(&self) -> (r: bool)
        ensures
            r == (self.map.is_replay == Some(true)),
    {
        match self.map.is_replay {
            Some(b) => b,
            None => false,
        }
    }

    /// Resolves the textual game-type tag and optional subtype into the
    /// engine's (primary, subtype) pair; yields nothing for a team-based
    /// tag without a subtype or for an unrecognized tag.
    pub fn game_type(&self) -> (r: Option<GameType>)
        ensures
            r == spec_resolve_game_type(self.game_type@, self.game_sub_type),
    {
        if string_is(&self.game_type, "melee") {
            Some(GameType::melee())
        } else if string_is(&self.game_type, "ffa") {
            Some(GameType::ffa())
        } else if string_is(&self.game_type, "oneVOne") {
            Some(GameType::one_v_one())
        } else if string_is(&self.game_type, "ums") {
            Some(GameType::ums())
        } else if string_is(&self.game_type, "teamMelee") {
            match self.game_sub_type {
                Some(s) => Some(GameType::team_melee(s)),
                None => None,
            }
        } else if string_is(&self.game_type, "teamFfa") {
            match self.game_sub_type {
                Some(s) => Some(GameType::team_ffa(s)),
                None => None,
            }
        } else if string_is(&self.game_type, "topVBottom") {
            match self.game_sub_type {
                Some(s) => Some(GameType::top_v_bottom(s)),
                None => None,
            }
        } else {
            None
        }
    }
}

impl From<&GameSetupInfo> for LobbyOptions {
    /// Projects a setup message into lobby options. Total by policy: a
    /// derivation failure of the game type falls back to the fixed
    /// (0x2, 0x1) pair so that lobby start stays non-fatal on unknown
    /// future tags.
    fn from(value: &GameSetupInfo) -> (r: LobbyOptions) {
        let game_type = match value.game_type() {
            Some(gt) => gt,
            None => GameType { primary: 0x2, subtype: 0x1 },
        };
        let turn_rate = match value.turn_rate {
            Some(t) => t,
            None => 0,
        };
        let use_legacy_limits = match value.use_legacy_limits {
            Some(l) => l,
            None => false,
        };
        LobbyOptions { game_type, turn_rate, use_legacy_limits }
    }
}

impl vstd::std_specs::convert::FromSpecImpl<&GameSetupInfo> for LobbyOptions {
    open spec fn obeys_from_spec() -> bool {
        true
    }

    open spec fn from_spec(t: &GameSetupInfo) -> LobbyOptions {
        spec_lobby_options(*t)
    }
}

/// Projection never fails: whenever game-type derivation fails for a setup
/// message, the projected lobby options carry the fixed fallback pair.
pub proof fn lemma_projection_total(setup: GameSetupInfo)
    ensures
        spec_resolve_game_type(setup.game_type@, setup.game_sub_type) is None
            ==> spec_lobby_options(setup).game_type == (GameType { primary: 0x2, subtype: 0x1 }),
        spec_resolve_game_type(setup.game_type@, setup.game_sub_type) matches Some(gt)
            ==> spec_lobby_options(setup).game_type == gt,
{
}

} // verus!
