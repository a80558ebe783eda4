//! Leaf status and notification messages: carried verbatim between the
//! host application and this layer, with no derived logic.

use vstd::prelude::*;

verus! {

/// Reserved setup-progress state for the terminal error outcome, distinct
/// from every in-progress state.
pub const GAME_STATUS_ERROR: u32 = 666;

/// Progress notification sent while a match is being set up.
#[derive(Clone, Debug)]
pub struct SetupProgress {
    pub status: SetupProgressInfo,
}

#[derive(Clone, Debug)]
pub struct SetupProgressInfo {
    pub state: u32,
    pub extra: Option<String>,
}

/// The local user's backend identity.
#[derive(Clone, Debug)]
pub struct LocalUser {
    pub id: u32,
    pub name: String,
}

/// Window geometry notification.
#[derive(Copy, Clone, Debug, PartialEq, Eq, Structural)]
pub struct WindowMove {
    pub x: i32,
    pub y: i32,
    pub w: i32,
    pub h: i32,
}

/// Notification that a replay file was written.
#[derive(Clone, Debug)]
pub struct ReplaySaved {
    pub path: String,
}

} // verus!
