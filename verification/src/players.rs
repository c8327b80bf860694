//! The fully nested shape of one raw player-stat record as the decoder
//! exposes it.

use vstd::prelude::*;

verus! {

/// One raw player-stat record.
pub struct PlayerStat {
    pub player_id: PlayerId,
    pub name: String,
    pub platform: PlatformValue,
    pub online_id: String,
    pub team: u8,
    pub score: i32,
    pub goals: i32,
    pub assists: i32,
    pub saves: i32,
    pub shots: i32,
    pub b_bot: bool,
}

/// The nested player identity record.
pub struct PlayerId {
    pub name: String,
    pub fields: PlayerFields,
}

/// The identity record's fields.
pub struct PlayerFields {
    pub uid: String,
    pub np_id: NpId,
    pub epic_account_id: String,
    pub platform: Platform,
}

/// A platform-network identity.
pub struct NpId {
    pub name: String,
    pub fields: NpFields,
}

/// The platform-network identity's fields.
pub struct NpFields {
    pub handle: Handle,
    pub opt: String,
    pub reserved: String,
}

/// A player handle.
pub struct Handle {
    pub name: String,
    pub fields: HandleFields,
}

/// The handle's data.
pub struct HandleFields {
    pub data: String,
}

/// The platform of the identity record.
pub struct Platform {
    pub kind: String,
    pub value: String,
}

/// The platform of the top-level record.
pub struct PlatformValue {
    pub kind: String,
    pub value: String,
}

} // verus!
