//! The network route schema: which relay server and route a player's
//! connection uses. Pure data with parse validation only; the transport
//! itself is an external collaborator.

use vstd::prelude::*;

use crate::parse::SchemaError;
use crate::setup::LobbyPlayerId;

verus! {

/// A relay server: at least one of the two addresses must be given.
#[derive(Clone, Debug, PartialEq, Eq)]
pub struct RallyPointServer {
    pub address4: Option<String>,
    pub address6: Option<String>,
    pub port: u16,
    pub description: String,
    pub id: u32,
}

/// The relay assignment of one player: keyed by the roster identity in a
/// separate field, since routes may arrive after the roster is final.
#[derive(Clone, Debug, PartialEq, Eq)]
pub struct Route {
    pub for_player: LobbyPlayerId,
    pub server: RallyPointServer,
    pub route_id: String,
    pub player_id: u32,
}

/// A relay server as received.
#[derive(Clone, Debug)]
pub struct RawRallyPointServer {
    pub address4: Option<String>,
    pub address6: Option<String>,
    pub port: Option<u16>,
    pub description: Option<String>,
    pub id: Option<u32>,
}

/// A route assignment as received.
#[derive(Clone, Debug)]
pub struct RawRoute {
    pub for_player: Option<String>,
    pub server: Option<RawRallyPointServer>,
    pub route_id: Option<String>,
    pub player_id: Option<u32>,
}

/// A raw relay server is valid when it names at least one address and
/// carries port, description and numeric id.
pub open spec fn raw_server_ok(s: RawRallyPointServer) -> bool {
    &&& s.address4 is Some || s.address6 is Some
    &&& s.port is Some
    &&& s.description is Some
    &&& s.id is Some
}

/// The strict server holds each raw field, both addresses kept as sent.
pub open spec fn server_matches(out: RallyPointServer, s: RawRallyPointServer) -> bool {
    &&& out.address4 == s.address4
    &&& out.address6 == s.address6
    &&& out.port == s.port->Some_0
    &&& out.description == s.description->Some_0
    &&& out.id == s.id->Some_0
}

/// The first failing requirement of an invalid raw relay server, in
/// declaration order: the address pair counts as one requirement at the
/// front.
pub open spec fn spec_server_err(s: RawRallyPointServer) -> SchemaError {
    if s.address4 is None && s.address6 is None {
        SchemaError::MissingServerAddress
    } else if s.port is None {
        SchemaError::MissingServerPort
    } else if s.description is None {
        SchemaError::MissingServerDescription
    } else {
        SchemaError::MissingServerId
    }
}

impl RallyPointServer {
    /// Validates a raw relay server: at least one address, and port,
    /// description and id all present.
    pub fn from_raw(s: RawRallyPointServer) -> (r: Result<RallyPointServer, SchemaError>)
        ensures
            match r {
                Ok(v) => raw_server_ok(s) && server_matches(v, s),
                Err(e) => !raw_server_ok(s) && e == spec_server_err(s),
            },
    {
        let RawRallyPointServer { address4, address6, port, description, id } = s;
        if address4.is_none() && address6.is_none() {
            return Err(SchemaError::MissingServerAddress);
        }
        let port = match port {
            Some(p) => p,
            None => {
                return Err(SchemaError::MissingServerPort);
            },
        };
        let description = match description {
            Some(d) => d,
            None => {
                return Err(SchemaError::MissingServerDescription);
            },
        };
        let id = match id {
            Some(i) => i,
            None => {
                return Err(SchemaError::MissingServerId);
            },
        };
        Ok(RallyPointServer { address4, address6, port, description, id })
    }
}

/// A raw route is valid when the target player, a valid relay server,
/// the route id and the engine-level player id are all present.
pub open spec fn raw_route_ok(r: RawRoute) -> bool {
    &&& r.for_player is Some
    &&& r.server matches Some(s) && raw_server_ok(s)
    &&& r.route_id is Some
    &&& r.player_id is Some
}

/// The strict route holds each raw field, the server parsed.
pub open spec fn route_matches(out: Route, r: RawRoute) -> bool {
    &&& out.for_player == LobbyPlayerId(r.for_player->Some_0)
    &&& server_matches(out.server, r.server->Some_0)
    &&& out.route_id == r.route_id->Some_0
    &&& out.player_id == r.player_id->Some_0
}

/// The first failing requirement of an invalid raw route, in declaration
/// order, descending into the server at its position.
pub open spec fn spec_route_err(r: RawRoute) -> SchemaError {
    if r.for_player is None {
        SchemaError::MissingRouteFor
    } else if r.server is None {
        SchemaError::MissingRouteServer
    } else if !raw_server_ok(r.server->Some_0) {
        spec_server_err(r.server->Some_0)
    } else if r.route_id is None {
        SchemaError::MissingRouteId
    } else {
        SchemaError::MissingRoutePlayerId
    }
}

impl Route {
    /// Validates a raw route assignment: the strict route exactly when
    /// every requirement holds, else the first failing one.
    pub fn from_raw(r: RawRoute) -> (res: Result<Route, SchemaError>)
        ensures
            match res {
                Ok(v) => raw_route_ok(r) && route_matches(v, r),
                Err(e) => !raw_route_ok(r) && e == spec_route_err(r),
            },
    {
        let RawRoute { for_player, server, route_id, player_id } = r;
        let for_player = match for_player {
            Some(p) => p,
            None => {
                return Err(SchemaError::MissingRouteFor);
            },
        };
        let server = match server {
            Some(s) => {
                match RallyPointServer::from_raw(s) {
                    Ok(v) => v,
                    Err(e) => {
                        return Err(e);
                    },
                }
            },
            None => {
                return Err(SchemaError::MissingRouteServer);
            },
        };
        let route_id = match route_id {
            Some(i) => i,
            None => {
                return Err(SchemaError::MissingRouteId);
            },
        };
        let player_id = match player_id {
            Some(i) => i,
            None => {
                return Err(SchemaError::MissingRoutePlayerId);
            },
        };
        Ok(Route { for_player: LobbyPlayerId(for_player), server, route_id, player_id })
    }
}

} // verus!
