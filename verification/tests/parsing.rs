use app_messages::parse::{
    RawGameSetupInfo, RawMapData, RawMapForce, RawMapForcePlayer, RawMapInfo, RawPlayerInfo,
    SchemaError,
};
use app_messages::route::{RallyPointServer, RawRallyPointServer, RawRoute, Route};
use app_messages::setup::{
    GameSetupInfo, MapData, MapForce, MapForcePlayer, MapInfo, PlayerInfo, UmsLobbyRace,
};

fn raw_player() -> RawPlayerInfo {
    RawPlayerInfo {
        id: Some(String::from("p1")),
        name: Some(String::from("somebody")),
        race: Some(String::from("t")),
        user_id: Some(7),
        player_id: None,
        team_id: Some(1),
        player_type: Some(String::from("human")),
        player_type_id: Some(2),
    }
}

fn raw_force_player() -> RawMapForcePlayer {
    RawMapForcePlayer {
        id: Some(0),
        race: Some(String::from("any")),
    }
}

fn raw_map_data() -> RawMapData {
    RawMapData {
        height: Some(128),
        width: Some(128),
        ums_slots: Some(8),
        slots: Some(8),
        tileset: Some(1),
        ums_forces: Some(vec![RawMapForce {
            players: Some(vec![raw_force_player()]),
        }]),
        is_eud: Some(false),
    }
}

fn raw_live_map() -> RawMapInfo {
    RawMapInfo {
        is_replay: None,
        hash: Some(String::from("abcd")),
        map_data: Some(raw_map_data()),
        name: Some(String::from("Lost Temple")),
        path: Some(String::from("maps/lt.scm")),
    }
}

fn raw_replay_map() -> RawMapInfo {
    RawMapInfo {
        is_replay: Some(true),
        hash: None,
        map_data: None,
        name: None,
        path: None,
    }
}

fn raw_setup() -> RawGameSetupInfo {
    RawGameSetupInfo {
        name: Some(String::from("lobby")),
        map: Some(raw_live_map()),
        map_path: Some(String::from("maps/lt.scm")),
        game_type: Some(String::from("melee")),
        game_sub_type: None,
        slots: Some(vec![raw_player()]),
        host: Some(raw_player()),
        disable_alliance_changes: None,
        use_legacy_limits: None,
        turn_rate: None,
        user_latency: None,
        seed: Some(1234),
        game_id: Some(String::from("game-1")),
        result_code: Some(String::from("rc-1")),
        server_url: Some(String::from("https://example.invalid")),
    }
}

fn raw_server() -> RawRallyPointServer {
    RawRallyPointServer {
        address4: Some(String::from("192.0.2.1")),
        address6: None,
        port: Some(14098),
        description: Some(String::from("us-west")),
        id: Some(3),
    }
}

fn raw_route() -> RawRoute {
    RawRoute {
        for_player: Some(String::from("p1")),
        server: Some(raw_server()),
        route_id: Some(String::from("route-9")),
        player_id: Some(2),
    }
}

#[test]
fn valid_setup_parses() {
    let parsed = GameSetupInfo::from_raw(raw_setup()).unwrap();
    assert_eq!(parsed.name, "lobby");
    assert_eq!(parsed.map_path, "maps/lt.scm");
    assert_eq!(parsed.game_type, "melee");
    assert_eq!(parsed.slots.len(), 1);
    assert_eq!(parsed.slots[0].name, "somebody");
    assert_eq!(parsed.slots[0].team_id, 1);
    assert_eq!(parsed.host.id.0, "p1");
    assert_eq!(parsed.seed, 1234);
    assert_eq!(parsed.game_id, "game-1");
    assert_eq!(parsed.result_code.as_deref(), Some("rc-1"));
    assert_eq!(parsed.server_url, "https://example.invalid");
    let data = parsed.map.map_data.unwrap();
    assert_eq!(data.height, 128);
    assert_eq!(data.tileset, 1);
    assert_eq!(data.ums_forces.len(), 1);
    assert_eq!(
        data.ums_forces[0].players[0],
        MapForcePlayer { id: 0, race: UmsLobbyRace::Any }
    );
}

#[test]
fn replay_shape_with_all_fields_absent_parses() {
    let mut s = raw_setup();
    s.map = Some(raw_replay_map());
    let parsed = GameSetupInfo::from_raw(s).unwrap();
    assert!(parsed.is_replay());
    assert!(parsed.map.map_data.is_none());
}

#[test]
fn live_shape_without_replay_flag_parses() {
    let parsed = GameSetupInfo::from_raw(raw_setup()).unwrap();
    assert!(!parsed.is_replay());
    assert!(parsed.map.map_data.is_some());
}

#[test]
fn replay_flag_with_live_fields_is_accepted() {
    let mut m = raw_live_map();
    m.is_replay = Some(true);
    let mut s = raw_setup();
    s.map = Some(m);
    let parsed = GameSetupInfo::from_raw(s).unwrap();
    assert!(parsed.is_replay());
    // The extra fields are kept as sent, not rejected.
    assert!(parsed.map.map_data.is_some());
    assert_eq!(parsed.map.hash.as_deref(), Some("abcd"));
}

#[test]
fn missing_required_setup_fields() {
    let mut s = raw_setup();
    s.name = None;
    assert_eq!(GameSetupInfo::from_raw(s), Err(SchemaError::MissingName));
    let mut s = raw_setup();
    s.map = None;
    assert_eq!(GameSetupInfo::from_raw(s), Err(SchemaError::MissingMap));
    let mut s = raw_setup();
    s.map_path = None;
    assert_eq!(GameSetupInfo::from_raw(s), Err(SchemaError::MissingMapPath));
    let mut s = raw_setup();
    s.game_type = None;
    assert_eq!(GameSetupInfo::from_raw(s), Err(SchemaError::MissingGameType));
    let mut s = raw_setup();
    s.slots = None;
    assert_eq!(GameSetupInfo::from_raw(s), Err(SchemaError::MissingSlots));
    let mut s = raw_setup();
    s.host = None;
    assert_eq!(GameSetupInfo::from_raw(s), Err(SchemaError::MissingHost));
    let mut s = raw_setup();
    s.seed = None;
    assert_eq!(GameSetupInfo::from_raw(s), Err(SchemaError::MissingSeed));
    let mut s = raw_setup();
    s.game_id = None;
    assert_eq!(GameSetupInfo::from_raw(s), Err(SchemaError::MissingGameId));
    let mut s = raw_setup();
    s.server_url = None;
    assert_eq!(GameSetupInfo::from_raw(s), Err(SchemaError::MissingServerUrl));
}

#[test]
fn optional_setup_fields_may_be_absent() {
    let mut s = raw_setup();
    s.game_sub_type = None;
    s.disable_alliance_changes = None;
    s.use_legacy_limits = None;
    s.turn_rate = None;
    s.user_latency = None;
    s.result_code = None;
    let parsed = GameSetupInfo::from_raw(s).unwrap();
    assert_eq!(parsed.result_code, None);
    assert_eq!(parsed.turn_rate, None);
}

#[test]
fn first_missing_field_wins() {
    let mut s = raw_setup();
    s.name = None;
    s.seed = None;
    assert_eq!(GameSetupInfo::from_raw(s), Err(SchemaError::MissingName));
}

#[test]
fn missing_player_fields() {
    let mut p = raw_player();
    p.id = None;
    assert_eq!(PlayerInfo::from_raw(&p), Err(SchemaError::MissingPlayerId));
    let mut p = raw_player();
    p.name = None;
    assert_eq!(PlayerInfo::from_raw(&p), Err(SchemaError::MissingPlayerName));
    let mut p = raw_player();
    p.team_id = None;
    assert_eq!(PlayerInfo::from_raw(&p), Err(SchemaError::MissingPlayerTeam));
    let mut p = raw_player();
    p.player_type = None;
    assert_eq!(PlayerInfo::from_raw(&p), Err(SchemaError::MissingPlayerType));
    let mut p = raw_player();
    p.player_type_id = None;
    assert_eq!(PlayerInfo::from_raw(&p), Err(SchemaError::MissingPlayerTypeId));
}

#[test]
fn optional_player_fields_may_be_absent() {
    let mut p = raw_player();
    p.race = None;
    p.user_id = None;
    p.player_id = None;
    let parsed = PlayerInfo::from_raw(&p).unwrap();
    assert_eq!(parsed.race, None);
    assert_eq!(parsed.user_id, None);
    assert_eq!(parsed.player_id, None);
}

#[test]
fn invalid_roster_entry_fails_the_whole_message() {
    let mut bad = raw_player();
    bad.player_type = None;
    let mut s = raw_setup();
    s.slots = Some(vec![raw_player(), bad]);
    assert_eq!(GameSetupInfo::from_raw(s), Err(SchemaError::MissingPlayerType));
}

#[test]
fn first_invalid_roster_entry_wins() {
    let mut bad1 = raw_player();
    bad1.name = None;
    let mut bad2 = raw_player();
    bad2.id = None;
    let mut s = raw_setup();
    s.slots = Some(vec![raw_player(), bad1, bad2]);
    assert_eq!(GameSetupInfo::from_raw(s), Err(SchemaError::MissingPlayerName));
}

#[test]
fn missing_map_data_fields() {
    let checks: Vec<(fn(&mut RawMapData), SchemaError)> = vec![
        (|d| d.height = None, SchemaError::MissingMapHeight),
        (|d| d.width = None, SchemaError::MissingMapWidth),
        (|d| d.ums_slots = None, SchemaError::MissingMapUmsSlots),
        (|d| d.slots = None, SchemaError::MissingMapSlots),
        (|d| d.tileset = None, SchemaError::MissingMapTileset),
        (|d| d.ums_forces = None, SchemaError::MissingMapForces),
        (|d| d.is_eud = None, SchemaError::MissingMapEud),
    ];
    for (mutate, expected) in checks {
        let mut d = raw_map_data();
        mutate(&mut d);
        assert_eq!(MapData::from_raw(&d), Err(expected));
    }
}

#[test]
fn incomplete_map_data_fails_the_whole_message() {
    let mut m = raw_live_map();
    m.map_data.as_mut().unwrap().tileset = None;
    let mut s = raw_setup();
    s.map = Some(m);
    assert_eq!(GameSetupInfo::from_raw(s), Err(SchemaError::MissingMapTileset));
}

#[test]
fn force_slot_errors() {
    let mut p = raw_force_player();
    p.id = None;
    assert_eq!(
        MapForcePlayer::from_raw(&p),
        Err(SchemaError::MissingForcePlayerId)
    );
    let mut p = raw_force_player();
    p.race = None;
    assert_eq!(
        MapForcePlayer::from_raw(&p),
        Err(SchemaError::MissingForcePlayerRace)
    );
    let mut p = raw_force_player();
    p.race = Some(String::from("x"));
    assert_eq!(MapForcePlayer::from_raw(&p), Err(SchemaError::UnknownUmsRace));
    let f = RawMapForce { players: None };
    assert_eq!(MapForce::from_raw(&f), Err(SchemaError::MissingForcePlayers));
}

#[test]
fn force_race_tags_resolve() {
    let races = vec![
        ("z", UmsLobbyRace::Zerg),
        ("t", UmsLobbyRace::Terran),
        ("p", UmsLobbyRace::Protoss),
        ("r", UmsLobbyRace::Random),
        ("any", UmsLobbyRace::Any),
    ];
    for (tag, expected) in races {
        let p = RawMapForcePlayer {
            id: Some(1),
            race: Some(String::from(tag)),
        };
        assert_eq!(MapForcePlayer::from_raw(&p).unwrap().race, expected);
    }
}

#[test]
fn valid_route_parses() {
    let r = Route::from_raw(raw_route()).unwrap();
    assert_eq!(r.for_player.0, "p1");
    assert_eq!(r.server.port, 14098);
    assert_eq!(r.server.id, 3);
    assert_eq!(r.route_id, "route-9");
    assert_eq!(r.player_id, 2);
}

#[test]
fn route_accepts_either_address() {
    let mut s = raw_server();
    s.address4 = None;
    s.address6 = Some(String::from("2001:db8::1"));
    let parsed = RallyPointServer::from_raw(s).unwrap();
    assert_eq!(parsed.address4, None);
    assert_eq!(parsed.address6.as_deref(), Some("2001:db8::1"));
}

#[test]
fn route_errors() {
    let mut r = raw_route();
    r.for_player = None;
    assert_eq!(Route::from_raw(r), Err(SchemaError::MissingRouteFor));
    let mut r = raw_route();
    r.server = None;
    assert_eq!(Route::from_raw(r), Err(SchemaError::MissingRouteServer));
    let mut r = raw_route();
    r.route_id = None;
    assert_eq!(Route::from_raw(r), Err(SchemaError::MissingRouteId));
    let mut r = raw_route();
    r.player_id = None;
    assert_eq!(Route::from_raw(r), Err(SchemaError::MissingRoutePlayerId));
}

#[test]
fn server_errors() {
    let mut s = raw_server();
    s.address4 = None;
    s.address6 = None;
    assert_eq!(
        RallyPointServer::from_raw(s),
        Err(SchemaError::MissingServerAddress)
    );
    let mut s = raw_server();
    s.port = None;
    assert_eq!(RallyPointServer::from_raw(s), Err(SchemaError::MissingServerPort));
    let mut s = raw_server();
    s.description = None;
    assert_eq!(
        RallyPointServer::from_raw(s),
        Err(SchemaError::MissingServerDescription)
    );
    let mut s = raw_server();
    s.id = None;
    assert_eq!(RallyPointServer::from_raw(s), Err(SchemaError::MissingServerId));
    // An invalid nested server fails the route with the server's error.
    let mut r = raw_route();
    r.server.as_mut().unwrap().port = None;
    assert_eq!(Route::from_raw(r), Err(SchemaError::MissingServerPort));
}

#[test]
fn parsed_map_equals_expected_value() {
    let m = MapInfo::from_raw(raw_replay_map()).unwrap();
    assert_eq!(m.is_replay, Some(true));
    assert_eq!(m.hash, None);
    assert_eq!(m.name, None);
    assert_eq!(m.path, None);
    assert!(m.map_data.is_none());
}
