//! Validation of untrusted, loosely-typed inbound messages into the strict
//! model. Every field of a raw message may be absent; validation either
//! yields the strict value or fails with the first missing or malformed
//! required field, in declaration order, descending into nested records at
//! their position. No partial value is ever returned.

use vstd::prelude::*;

use crate::setup::{
    string_is, GameSetupInfo, LobbyPlayerId, MapData, MapForce, MapForcePlayer, MapInfo,
    PlayerInfo, UmsLobbyRace,
};

verus! {

/// A required field was missing or malformed at parse time. The whole
/// message fails; the variant names the first offending field.
#[derive(Copy, Clone, Debug, PartialEq, Eq, Structural)]
pub enum SchemaError {
    MissingName,
    MissingMap,
    MissingMapPath,
    MissingGameType,
    MissingSlots,
    MissingHost,
    MissingSeed,
    MissingGameId,
    MissingServerUrl,
    MissingPlayerId,
    MissingPlayerName,
    MissingPlayerTeam,
    MissingPlayerType,
    MissingPlayerTypeId,
    MissingMapHeight,
    MissingMapWidth,
    MissingMapUmsSlots,
    MissingMapSlots,
    MissingMapTileset,
    MissingMapForces,
    MissingMapEud,
    MissingForcePlayers,
    MissingForcePlayerId,
    MissingForcePlayerRace,
    UnknownUmsRace,
    MissingRouteFor,
    MissingRouteServer,
    MissingRouteId,
    MissingRoutePlayerId,
    MissingServerAddress,
    MissingServerPort,
    MissingServerDescription,
    MissingServerId,
}

/// A roster entry as received: every field may be absent.
#[derive(Clone, Debug)]
pub struct RawPlayerInfo {
    pub id: Option<String>,
    pub name: Option<String>,
    pub race: Option<String>,
    pub user_id: Option<u32>,
    pub player_id: Option<u8>,
    pub team_id: Option<u8>,
    pub player_type: Option<String>,
    pub player_type_id: Option<u8>,
}

/// A raw roster entry carries every required field: id, name, team id,
/// textual type and native type id. Race, user id and slot index stay
/// optional by design.
pub open spec fn raw_player_ok(p: RawPlayerInfo) -> bool {
    &&& p.id is Some
    &&& p.name is Some
    &&& p.team_id is Some
    &&& p.player_type is Some
    &&& p.player_type_id is Some
}

/// The strict roster entry a valid raw one parses to.
pub open spec fn spec_parse_player(p: RawPlayerInfo) -> PlayerInfo {
    PlayerInfo {
        id: LobbyPlayerId(p.id->Some_0),
        name: p.name->Some_0,
        race: p.race,
        user_id: p.user_id,
        player_id: p.player_id,
        team_id: p.team_id->Some_0,
        player_type: p.player_type->Some_0,
        player_type_id: p.player_type_id->Some_0,
    }
}

/// The first missing required field of an invalid raw roster entry, in
/// declaration order.
pub open spec fn spec_player_err(p: RawPlayerInfo) -> SchemaError {
    if p.id is None {
        SchemaError::MissingPlayerId
    } else if p.name is None {
        SchemaError::MissingPlayerName
    } else if p.team_id is None {
        SchemaError::MissingPlayerTeam
    } else if p.player_type is None {
        SchemaError::MissingPlayerType
    } else {
        SchemaError::MissingPlayerTypeId
    }
}

/// Clones an optional string, preserving its value.
fn clone_opt_string(s: &Option<String>) -> (r: Option<String>)
    ensures
        r == *s,
{
    match s {
        Some(v) => Some(v.clone()),
        None => None,
    }
}

impl PlayerInfo {
    /// Validates one raw roster entry: the strict entry exactly when every
    /// required field is present, else the first missing field.
    pub fn from_raw(p: &RawPlayerInfo) -> (r: Result<PlayerInfo, SchemaError>)
        ensures
            match r {
                Ok(v) => raw_player_ok(*p) && v == spec_parse_player(*p),
                Err(e) => !raw_player_ok(*p) && e == spec_player_err(*p),
            },
    {
        let id = match &p.id {
            Some(s) => s.clone(),
            None => {
                return Err(SchemaError::MissingPlayerId);
            },
        };
        let name = match &p.name {
            Some(s) => s.clone(),
            None => {
                return Err(SchemaError::MissingPlayerName);
            },
        };
        let team_id = match p.team_id {
            Some(t) => t,
            None => {
                return Err(SchemaError::MissingPlayerTeam);
            },
        };
        let player_type = match &p.player_type {
            Some(t) => t.clone(),
            None => {
                return Err(SchemaError::MissingPlayerType);
            },
        };
        let player_type_id = match p.player_type_id {
            Some(t) => t,
            None => {
                return Err(SchemaError::MissingPlayerTypeId);
            },
        };
        Ok(PlayerInfo {
            id: LobbyPlayerId(id),
            name,
            race: clone_opt_string(&p.race),
            user_id: p.user_id,
            player_id: p.player_id,
            team_id,
            player_type,
            player_type_id,
        })
    }
}

/// A map-embedded force slot as received.
#[derive(Clone, Debug)]
pub struct RawMapForcePlayer {
    pub id: Option<u8>,
    pub race: Option<String>,
}

/// A map-embedded force as received.
#[derive(Clone, Debug)]
pub struct RawMapForce {
    pub players: Option<Vec<RawMapForcePlayer>>,
}

/// Map metadata as received.
#[derive(Clone, Debug)]
pub struct RawMapData {
    pub height: Option<u16>,
    pub width: Option<u16>,
    pub ums_slots: Option<u8>,
    pub slots: Option<u8>,
    pub tileset: Option<u16>,
    pub ums_forces: Option<Vec<RawMapForce>>,
    pub is_eud: Option<bool>,
}

/// A map descriptor as received. All fields are optional at the wire
/// level; validity only demands that embedded map metadata, when present,
/// is itself complete.
#[derive(Clone, Debug)]
pub struct RawMapInfo {
    pub is_replay: Option<bool>,
    pub hash: Option<String>,
    pub map_data: Option<RawMapData>,
    pub name: Option<String>,
    pub path: Option<String>,
}

/// The race a force-slot tag resolves to. Unlike the roster race tags this
/// set is closed without a fallback: an unknown tag is a schema error.
pub open spec fn spec_ums_race(tag: Seq<char>) -> Option<UmsLobbyRace> {
    if tag == "z"@ {
        Some(UmsLobbyRace::Zerg)
    } else if tag == "t"@ {
        Some(UmsLobbyRace::Terran)
    } else if tag == "p"@ {
        Some(UmsLobbyRace::Protoss)
    } else if tag == "r"@ {
        Some(UmsLobbyRace::Random)
    } else if tag == "any"@ {
        Some(UmsLobbyRace::Any)
    } else {
        None
    }
}

/// Resolves a force-slot race tag; yields nothing for an unknown tag.
pub fn parse_ums_race(tag: &String) -> (r: Option<UmsLobbyRace>)
    ensures
        r == spec_ums_race(tag@),
{
    if string_is(tag, "z") {
        Some(UmsLobbyRace::Zerg)
    } else if string_is(tag, "t") {
        Some(UmsLobbyRace::Terran)
    } else if string_is(tag, "p") {
        Some(UmsLobbyRace::Protoss)
    } else if string_is(tag, "r") {
        Some(UmsLobbyRace::Random)
    } else if string_is(tag, "any") {
        Some(UmsLobbyRace::Any)
    } else {
        None
    }
}

pub open spec fn raw_force_player_ok(p: RawMapForcePlayer) -> bool {
    &&& p.id is Some
    &&& p.race matches Some(r) && spec_ums_race(r@) is Some
}

pub open spec fn spec_parse_force_player(p: RawMapForcePlayer) -> MapForcePlayer {
    MapForcePlayer { id: p.id->Some_0, race: spec_ums_race(p.race->Some_0@)->Some_0 }
}

pub open spec fn spec_force_player_err(p: RawMapForcePlayer) -> SchemaError {
    if p.id is None {
        SchemaError::MissingForcePlayerId
    } else if p.race is None {
        SchemaError::MissingForcePlayerRace
    } else {
        SchemaError::UnknownUmsRace
    }
}

impl MapForcePlayer {
    /// Validates one raw force slot: slot index required, race tag
    /// required and drawn from the closed force-race set.
    pub fn from_raw(p: &RawMapForcePlayer) -> (r: Result<MapForcePlayer, SchemaError>)
        ensures
            match r {
                Ok(v) => raw_force_player_ok(*p) && v == spec_parse_force_player(*p),
                Err(e) => !raw_force_player_ok(*p) && e == spec_force_player_err(*p),
            },
    {
        let id = match p.id {
            Some(i) => i,
            None => {
                return Err(SchemaError::MissingForcePlayerId);
            },
        };
        let race_tag = match &p.race {
            Some(t) => t,
            None => {
                return Err(SchemaError::MissingForcePlayerRace);
            },
        };
        let race = match parse_ums_race(race_tag) {
            Some(race) => race,
            None => {
                return Err(SchemaError::UnknownUmsRace);
            },
        };
        Ok(MapForcePlayer { id, race })
    }
}

/// Every slot of the sequence is a valid raw force slot.
pub open spec fn raw_force_players_ok(s: Seq<RawMapForcePlayer>) -> bool {
    forall|i: int| 0 <= i < s.len() ==> raw_force_player_ok(s[i])
}

pub open spec fn spec_parse_force_players(s: Seq<RawMapForcePlayer>) -> Seq<MapForcePlayer> {
    Seq::new(s.len(), |i: int| spec_parse_force_player(s[i]))
}

/// Validates a sequence of raw force slots; on failure the error is that
/// of the first invalid slot.
pub fn parse_force_players(v: &Vec<RawMapForcePlayer>) -> (r: Result<
    Vec<MapForcePlayer>,
    SchemaError,
>)
    ensures
        match r {
            Ok(out) => raw_force_players_ok(v@) && out@ == spec_parse_force_players(v@),
            Err(e) => !raw_force_players_ok(v@) && e == spec_first_force_players_err(v@),
        },
{
    let mut out: Vec<MapForcePlayer> = Vec::new();
    let mut idx: usize = 0;
    while idx < v.len()
        invariant
            0 <= idx <= v@.len(),
            forall|j: int| 0 <= j < idx ==> raw_force_player_ok(v@[j]),
            out@ == spec_parse_force_players(v@.take(idx as int)),
        decreases v@.len() - idx,
    {
        match MapForcePlayer::from_raw(&v[idx]) {
            Ok(p) => {
                out.push(p);
                proof {
                    assert(out@ =~= spec_parse_force_players(v@.take(idx as int + 1)));
                }
            },
            Err(e) => {
                proof {
                    lemma_first_force_players_err(v@, idx as int);
                }
                return Err(e);
            },
        }
        idx = idx + 1;
    }
    proof {
        assert(out@ =~= spec_parse_force_players(v@));
    }
    Ok(out)
}

/// The first-error function agrees with the witness of the first invalid
/// slot.
proof fn lemma_first_force_players_err(s: Seq<RawMapForcePlayer>, i: int)
    requires
        0 <= i < s.len(),
        !raw_force_player_ok(s[i]),
        forall|j: int| 0 <= j < i ==> raw_force_player_ok(s[j]),
    ensures
        spec_first_force_players_err(s) == spec_force_player_err(s[i]),
    decreases i,
{
    if i > 0 {
        lemma_first_force_players_err(s.drop_first(), i - 1);
    }
}

pub open spec fn raw_force_ok(f: RawMapForce) -> bool {
    &&& f.players matches Some(p) && raw_force_players_ok(p@)
}

/// The strict force holds exactly the parses of the raw force's slots.
pub open spec fn force_matches(out: MapForce, f: RawMapForce) -> bool {
    out.players@ == spec_parse_force_players(f.players->Some_0@)
}

/// Every force of the sequence is valid.
pub open spec fn raw_forces_ok(s: Seq<RawMapForce>) -> bool {
    forall|i: int| 0 <= i < s.len() ==> raw_force_ok(s[i])
}

/// The strict force list corresponds one to one to the raw one.
pub open spec fn forces_match(out: Seq<MapForce>, s: Seq<RawMapForce>) -> bool {
    &&& out.len() == s.len()
    &&& forall|i: int| 0 <= i < s.len() ==> force_matches(#[trigger] out[i], s[i])
}

/// The error of one invalid raw force: a missing slot list, else the
/// first invalid slot's error.
pub open spec fn spec_force_err(f: RawMapForce) -> SchemaError
    decreases 1int,
{
    match f.players {
        None => SchemaError::MissingForcePlayers,
        Some(p) => spec_first_force_players_err(p@),
    }
}

/// The error of the first invalid slot of a sequence known to hold one.
pub open spec fn spec_first_force_players_err(s: Seq<RawMapForcePlayer>) -> SchemaError
    decreases s.len(),
{
    if s.len() == 0 {
        SchemaError::MissingForcePlayers
    } else if !raw_force_player_ok(s[0]) {
        spec_force_player_err(s[0])
    } else {
        spec_first_force_players_err(s.drop_first())
    }
}

impl MapForce {
    /// Validates one raw force: the slot list is required and every slot
    /// must be valid.
    pub fn from_raw(f: &RawMapForce) -> (r: Result<MapForce, SchemaError>)
        ensures
            match r {
                Ok(v) => raw_force_ok(*f) && force_matches(v, *f),
                Err(e) => !raw_force_ok(*f) && e == spec_force_err(*f),
            },
    {
        let players = match &f.players {
            Some(p) => p,
            None => {
                return Err(SchemaError::MissingForcePlayers);
            },
        };
        match parse_force_players(players) {
            Ok(out) => Ok(MapForce { players: out }),
            Err(e) => Err(e),
        }
    }
}

/// The error of the first invalid force of a sequence known to hold one.
pub open spec fn spec_first_forces_err(s: Seq<RawMapForce>) -> SchemaError
    decreases s.len(),
{
    if s.len() == 0 {
        SchemaError::MissingMapForces
    } else if !raw_force_ok(s[0]) {
        spec_force_err(s[0])
    } else {
        spec_first_forces_err(s.drop_first())
    }
}

proof fn lemma_first_forces_err(s: Seq<RawMapForce>, i: int)
    requires
        0 <= i < s.len(),
        !raw_force_ok(s[i]),
        forall|j: int| 0 <= j < i ==> raw_force_ok(s[j]),
    ensures
        spec_first_forces_err(s) == spec_force_err(s[i]),
    decreases i,
{
    if i > 0 {
        lemma_first_forces_err(s.drop_first(), i - 1);
    }
}

/// Validates a list of raw forces; on failure the error is that of the
/// first invalid force.
pub fn parse_forces(v: &Vec<RawMapForce>) -> (r: Result<Vec<MapForce>, SchemaError>)
    ensures
        match r {
            Ok(out) => raw_forces_ok(v@) && forces_match(out@, v@),
            Err(e) => !raw_forces_ok(v@) && e == spec_first_forces_err(v@),
        },
{
    let mut out: Vec<MapForce> = Vec::new();
    let mut idx: usize = 0;
    while idx < v.len()
        invariant
            0 <= idx <= v@.len(),
            out@.len() == idx,
            forall|j: int| 0 <= j < idx ==> raw_force_ok(v@[j]),
            forall|j: int| 0 <= j < idx ==> force_matches(#[trigger] out@[j], v@[j]),
        decreases v@.len() - idx,
    {
        match MapForce::from_raw(&v[idx]) {
            Ok(p) => {
                out.push(p);
            },
            Err(e) => {
                proof {
                    lemma_first_forces_err(v@, idx as int);
                }
                return Err(e);
            },
        }
        idx = idx + 1;
    }
    Ok(out)
}

/// Raw map metadata is complete: every field present and every force
/// valid.
pub open spec fn raw_map_data_ok(d: RawMapData) -> bool {
    &&& d.height is Some
    &&& d.width is Some
    &&& d.ums_slots is Some
    &&& d.slots is Some
    &&& d.tileset is Some
    &&& d.ums_forces matches Some(f) && raw_forces_ok(f@)
    &&& d.is_eud is Some
}

/// The strict metadata holds each raw field and the parsed force list.
pub open spec fn map_data_matches(out: MapData, d: RawMapData) -> bool {
    &&& out.height == d.height->Some_0
    &&& out.width == d.width->Some_0
    &&& out.ums_slots == d.ums_slots->Some_0
    &&& out.slots == d.slots->Some_0
    &&& out.tileset == d.tileset->Some_0
    &&& forces_match(out.ums_forces@, d.ums_forces->Some_0@)
    &&& out.is_eud == d.is_eud->Some_0
}

/// The first missing or malformed field of incomplete raw map metadata,
/// in declaration order.
pub open spec fn spec_map_data_err(d: RawMapData) -> SchemaError {
    if d.height is None {
        SchemaError::MissingMapHeight
    } else if d.width is None {
        SchemaError::MissingMapWidth
    } else if d.ums_slots is None {
        SchemaError::MissingMapUmsSlots
    } else if d.slots is None {
        SchemaError::MissingMapSlots
    } else if d.tileset is None {
        SchemaError::MissingMapTileset
    } else if d.ums_forces is None {
        SchemaError::MissingMapForces
    } else if !raw_forces_ok(d.ums_forces->Some_0@) {
        spec_first_forces_err(d.ums_forces->Some_0@)
    } else {
        SchemaError::MissingMapEud
    }
}

impl MapData {
    /// Validates raw map metadata: every field is required and the force
    /// list must be valid throughout.
    pub fn from_raw(d: &RawMapData) -> (r: Result<MapData, SchemaError>)
        ensures
            match r {
                Ok(v) => raw_map_data_ok(*d) && map_data_matches(v, *d),
                Err(e) => !raw_map_data_ok(*d) && e == spec_map_data_err(*d),
            },
    {
        let height = match d.height {
            Some(h) => h,
            None => {
                return Err(SchemaError::MissingMapHeight);
            },
        };
        let width = match d.width {
            Some(w) => w,
            None => {
                return Err(SchemaError::MissingMapWidth);
            },
        };
        let ums_slots = match d.ums_slots {
            Some(s) => s,
            None => {
                return Err(SchemaError::MissingMapUmsSlots);
            },
        };
        let slots = match d.slots {
            Some(s) => s,
            None => {
                return Err(SchemaError::MissingMapSlots);
            },
        };
        let tileset = match d.tileset {
            Some(t) => t,
            None => {
                return Err(SchemaError::MissingMapTileset);
            },
        };
        let raw_forces = match &d.ums_forces {
            Some(f) => f,
            None => {
                return Err(SchemaError::MissingMapForces);
            },
        };
        let ums_forces = match parse_forces(raw_forces) {
            Ok(f) => f,
            Err(e) => {
                return Err(e);
            },
        };
        let is_eud = match d.is_eud {
            Some(e) => e,
            None => {
                return Err(SchemaError::MissingMapEud);
            },
        };
        Ok(MapData { height, width, ums_slots, slots, tileset, ums_forces, is_eud })
    }
}

/// A raw map descriptor is acceptable whatever shape it has: both the
/// replay shape (flag set, other fields absent) and the live shape
/// (metadata present) pass, and a flagged replay that still carries
/// metadata passes too. Only embedded metadata that is present but
/// incomplete fails.
pub open spec fn raw_map_info_ok(m: RawMapInfo) -> bool {
    match m.map_data {
        Some(d) => raw_map_data_ok(d),
        None => true,
    }
}

/// The strict descriptor holds each raw field, with the metadata parsed
/// when present.
pub open spec fn map_info_matches(out: MapInfo, m: RawMapInfo) -> bool {
    &&& out.is_replay == m.is_replay
    &&& out.hash == m.hash
    &&& match (out.map_data, m.map_data) {
        (Some(o), Some(d)) => map_data_matches(o, d),
        (None, None) => true,
        _ => false,
    }
    &&& out.name == m.name
    &&& out.path == m.path
}

/// The error of an unacceptable raw map descriptor: its embedded
/// metadata's error.
pub open spec fn spec_map_info_err(m: RawMapInfo) -> SchemaError {
    spec_map_data_err(m.map_data->Some_0)
}

/// Shape disambiguation never rejects: whether a raw map descriptor is
/// accepted depends on its embedded metadata alone, never on the replay
/// flag or on which of the other optional fields are populated. A flagged
/// replay with live fields present is as acceptable as either pure shape.
pub proof fn lemma_map_acceptance_ignores_the_flag(m1: RawMapInfo, m2: RawMapInfo)
    requires
        m1.map_data == m2.map_data,
    ensures
        raw_map_info_ok(m1) == raw_map_info_ok(m2),
{
}

impl MapInfo {
    /// Validates a raw map descriptor. Both the replay and the live shape
    /// are accepted under this one type; the `is_replay` flag alone tells
    /// them apart, and extra fields beside a set flag are kept as sent.
    pub fn from_raw(m: RawMapInfo) -> (r: Result<MapInfo, SchemaError>)
        ensures
            match r {
                Ok(v) => raw_map_info_ok(m) && map_info_matches(v, m),
                Err(e) => !raw_map_info_ok(m) && e == spec_map_info_err(m),
            },
    {
        let RawMapInfo { is_replay, hash, map_data, name, path } = m;
        let map_data = match map_data {
            Some(d) => {
                match MapData::from_raw(&d) {
                    Ok(v) => Some(v),
                    Err(e) => {
                        return Err(e);
                    },
                }
            },
            None => None,
        };
        Ok(MapInfo { is_replay, hash, map_data, name, path })
    }
}

/// Every entry of the raw roster is valid.
pub open spec fn raw_players_ok(s: Seq<RawPlayerInfo>) -> bool {
    forall|i: int| 0 <= i < s.len() ==> raw_player_ok(s[i])
}

/// The strict roster holds exactly the parses of the raw entries, in
/// order.
pub open spec fn players_match(out: Seq<PlayerInfo>, s: Seq<RawPlayerInfo>) -> bool {
    out == Seq::new(s.len(), |i: int| spec_parse_player(s[i]))
}

/// The error of the first invalid entry of a roster known to hold one.
pub open spec fn spec_first_players_err(s: Seq<RawPlayerInfo>) -> SchemaError
    decreases s.len(),
{
    if s.len() == 0 {
        SchemaError::MissingSlots
    } else if !raw_player_ok(s[0]) {
        spec_player_err(s[0])
    } else {
        spec_first_players_err(s.drop_first())
    }
}

proof fn lemma_first_players_err(s: Seq<RawPlayerInfo>, i: int)
    requires
        0 <= i < s.len(),
        !raw_player_ok(s[i]),
        forall|j: int| 0 <= j < i ==> raw_player_ok(s[j]),
    ensures
        spec_first_players_err(s) == spec_player_err(s[i]),
    decreases i,
{
    if i > 0 {
        lemma_first_players_err(s.drop_first(), i - 1);
    }
}

/// Validates a raw roster; on failure the error is that of the first
/// invalid entry.
pub fn parse_players(v: &Vec<RawPlayerInfo>) -> (r: Result<Vec<PlayerInfo>, SchemaError>)
    ensures
        match r {
            Ok(out) => raw_players_ok(v@) && players_match(out@, v@),
            Err(e) => !raw_players_ok(v@) && e == spec_first_players_err(v@),
        },
{
    let mut out: Vec<PlayerInfo> = Vec::new();
    let mut idx: usize = 0;
    while idx < v.len()
        invariant
            0 <= idx <= v@.len(),
            forall|j: int| 0 <= j < idx ==> raw_player_ok(v@[j]),
            out@ == Seq::new(idx as nat, |i: int| spec_parse_player(v@[i])),
        decreases v@.len() - idx,
    {
        match PlayerInfo::from_raw(&v[idx]) {
            Ok(p) => {
                out.push(p);
                proof {
                    assert(out@ =~= Seq::new(
                        idx as nat + 1,
                        |i: int| spec_parse_player(v@[i]),
                    ));
                }
            },
            Err(e) => {
                proof {
                    lemma_first_players_err(v@, idx as int);
                }
                return Err(e);
            },
        }
        idx = idx + 1;
    }
    proof {
        assert(out@ =~= Seq::new(v@.len(), |i: int| spec_parse_player(v@[i])));
    }
    Ok(out)
}

/// The full setup message as received: every field may be absent.
#[derive(Clone, Debug)]
pub struct RawGameSetupInfo {
    pub name: Option<String>,
    pub map: Option<RawMapInfo>,
    pub map_path: Option<String>,
    pub game_type: Option<String>,
    pub game_sub_type: Option<u8>,
    pub slots: Option<Vec<RawPlayerInfo>>,
    pub host: Option<RawPlayerInfo>,
    pub disable_alliance_changes: Option<bool>,
    pub use_legacy_limits: Option<bool>,
    pub turn_rate: Option<u32>,
    pub user_latency: Option<u32>,
    pub seed: Option<u32>,
    pub game_id: Option<String>,
    pub result_code: Option<String>,
    pub server_url: Option<String>,
}

/// A raw setup message carries every required field — name, map
/// descriptor, map path, game-type tag, roster, host, seed, correlation
/// id and server URL — with the map descriptor, every roster entry and
/// the host entry themselves valid. The subtype and all override fields
/// stay optional.
pub open spec fn raw_setup_ok(s: RawGameSetupInfo) -> bool {
    &&& s.name is Some
    &&& s.map matches Some(m) && raw_map_info_ok(m)
    &&& s.map_path is Some
    &&& s.game_type is Some
    &&& s.slots matches Some(p) && raw_players_ok(p@)
    &&& s.host matches Some(h) && raw_player_ok(h)
    &&& s.seed is Some
    &&& s.game_id is Some
    &&& s.server_url is Some
}

/// The strict setup message holds each raw field, required ones
/// unwrapped, nested records parsed, optional ones kept as sent.
pub open spec fn setup_matches(out: GameSetupInfo, s: RawGameSetupInfo) -> bool {
    &&& out.name == s.name->Some_0
    &&& map_info_matches(out.map, s.map->Some_0)
    &&& out.map_path == s.map_path->Some_0
    &&& out.game_type == s.game_type->Some_0
    &&& out.game_sub_type == s.game_sub_type
    &&& players_match(out.slots@, s.slots->Some_0@)
    &&& out.host == spec_parse_player(s.host->Some_0)
    &&& out.disable_alliance_changes == s.disable_alliance_changes
    &&& out.use_legacy_limits == s.use_legacy_limits
    &&& out.turn_rate == s.turn_rate
    &&& out.user_latency == s.user_latency
    &&& out.seed == s.seed->Some_0
    &&& out.game_id == s.game_id->Some_0
    &&& out.result_code == s.result_code
    &&& out.server_url == s.server_url->Some_0
}

/// The first missing or malformed required field of an invalid raw setup
/// message, in declaration order, descending into the map descriptor, the
/// roster and the host at their positions.
pub open spec fn spec_setup_err(s: RawGameSetupInfo) -> SchemaError {
    if s.name is None {
        SchemaError::MissingName
    } else if s.map is None {
        SchemaError::MissingMap
    } else if !raw_map_info_ok(s.map->Some_0) {
        spec_map_info_err(s.map->Some_0)
    } else if s.map_path is None {
        SchemaError::MissingMapPath
    } else if s.game_type is None {
        SchemaError::MissingGameType
    } else if s.slots is None {
        SchemaError::MissingSlots
    } else if !raw_players_ok(s.slots->Some_0@) {
        spec_first_players_err(s.slots->Some_0@)
    } else if s.host is None {
        SchemaError::MissingHost
    } else if !raw_player_ok(s.host->Some_0) {
        spec_player_err(s.host->Some_0)
    } else if s.seed is None {
        SchemaError::MissingSeed
    } else if s.game_id is None {
        SchemaError::MissingGameId
    } else {
        SchemaError::MissingServerUrl
    }
}

impl GameSetupInfo {
    /// Validates a full raw setup message: the strict message exactly when
    /// every required field is present and well shaped, else the first
    /// offending field. No partial message is ever returned.
    pub fn from_raw(s: RawGameSetupInfo) -> (r: Result<GameSetupInfo, SchemaError>)
        ensures
            match r {
                Ok(v) => raw_setup_ok(s) && setup_matches(v, s),
                Err(e) => !raw_setup_ok(s) && e == spec_setup_err(s),
            },
    {
        let RawGameSetupInfo {
            name,
            map,
            map_path,
            game_type,
            game_sub_type,
            slots,
            host,
            disable_alliance_changes,
            use_legacy_limits,
            turn_rate,
            user_latency,
            seed,
            game_id,
            result_code,
            server_url,
        } = s;
        let name = match name {
            Some(n) => n,
            None => {
                return Err(SchemaError::MissingName);
            },
        };
        let map = match map {
            Some(m) => {
                match MapInfo::from_raw(m) {
                    Ok(v) => v,
                    Err(e) => {
                        return Err(e);
                    },
                }
            },
            None => {
                return Err(SchemaError::MissingMap);
            },
        };
        let map_path = match map_path {
            Some(p) => p,
            None => {
                return Err(SchemaError::MissingMapPath);
            },
        };
        let game_type = match game_type {
            Some(g) => g,
            None => {
                return Err(SchemaError::MissingGameType);
            },
        };
        let slots = match &slots {
            Some(p) => {
                match parse_players(p) {
                    Ok(v) => v,
                    Err(e) => {
                        return Err(e);
                    },
                }
            },
            None => {
                return Err(SchemaError::MissingSlots);
            },
        };
        let host = match &host {
            Some(h) => {
                match PlayerInfo::from_raw(h) {
                    Ok(v) => v,
                    Err(e) => {
                        return Err(e);
                    },
                }
            },
            None => {
                return Err(SchemaError::MissingHost);
            },
        };
        let seed = match seed {
            Some(v) => v,
            None => {
                return Err(SchemaError::MissingSeed);
            },
        };
        let game_id = match game_id {
            Some(g) => g,
            None => {
                return Err(SchemaError::MissingGameId);
            },
        };
        let server_url = match server_url {
            Some(u) => u,
            None => {
                return Err(SchemaError::MissingServerUrl);
            },
        };
        Ok(GameSetupInfo {
            name,
            map,
            map_path,
            game_type,
            game_sub_type,
            slots,
            host,
            disable_alliance_changes,
            use_legacy_limits,
            turn_rate,
            user_latency,
            seed,
            game_id,
            result_code,
            server_url,
        })
    }
}

} // verus!
