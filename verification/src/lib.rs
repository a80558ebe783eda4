//! Message schema for the boundary between a host application and a
//! real-time-strategy game engine: inbound match-setup messages are parsed
//! into a strict model, game types and player roster entries are resolved
//! into the engine's native enumerations, and final per-player results are
//! aggregated into an outbound report.

pub mod bw;
pub mod messages;
pub mod parse;
pub mod route;
pub mod results;
pub mod setup;
