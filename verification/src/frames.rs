//! The network-frame stream: an ordered sequence of frames, each carrying
//! "updated actor" events that pair an actor identifier with one tagged
//! attribute value. Read-only to the pipeline; may be absent entirely when
//! network data was not requested.

use vstd::prelude::*;

verus! {

/// The frame stream, when the decoder produced one.
pub struct NetworkFrames {
    pub frames: Vec<Frame>,
}

/// A single network frame. Times are fixed point, in thousandths of a
/// second.
pub struct Frame {
    pub time_millis: i64,
    pub delta_millis: i64,
    pub updated_actors: Vec<UpdatedActor>,
}

/// An actor that was updated during a frame.
pub struct UpdatedActor {
    pub actor_id: i32,
    pub stream_id: i32,
    pub object_id: i32,
    pub attribute: Attribute,
}

/// The attribute value carried by an update. The pipeline reads only the
/// team-loadout and plain-string variants; every other variant of the
/// decoder collapses into `Other`.
pub enum Attribute {
    TeamLoadout(TeamLoadout),
    Str(String),
    Other,
}

/// Both sides' loadouts, as replicated in one attribute.
pub struct TeamLoadout {
    pub blue: LoadoutConfig,
    pub orange: LoadoutConfig,
}

/// One side's loadout; `body` is the car product id.
pub struct LoadoutConfig {
    pub version: u32,
    pub body: u32,
    pub decal: u32,
    pub wheels: u32,
    pub rocket_trail: u32,
    pub antenna: u32,
    pub topper: u32,
    pub unknown1: u32,
    pub unknown2: u32,
    pub engine_audio: u32,
    pub trail: u32,
    pub goal_explosion: u32,
    pub banner: u32,
    pub product_id: u32,
}

/// Whether another actor is active.
pub struct ActiveActor {
    pub active: bool,
    pub actor: u32,
}

/// A player reservation.
pub struct Reservation {
    pub number: u32,
    pub unique_id: crate::common::UniqueId,
    pub name: String,
    pub unknown1: bool,
    pub unknown2: bool,
    pub unknown3: u32,
}

/// An actor's platform identity.
pub struct UniqueId2 {
    pub system_id: u8,
    pub remote_id: crate::common::RemoteId,
    pub local_id: u32,
}

/// The party leader's platform identity.
pub struct PartyLeader {
    pub system_id: u8,
    pub remote_id: crate::common::RemoteId,
    pub local_id: u32,
}

/// Per-item online loadout values for both sides.
pub struct LoadoutsOnline {
    pub blue: Vec<Vec<LoadoutValue>>,
    pub orange: Vec<Vec<LoadoutValue>>,
    pub unknown1: bool,
    pub unknown2: bool,
}

/// One online loadout item.
pub struct LoadoutValue {
    pub unknown: bool,
    pub object_ind: u32,
    pub value: LoadoutDetail,
}

/// The paint/color detail of an online loadout item.
pub struct LoadoutDetail {
    pub new_paint: Option<u32>,
    pub new_color: Option<u32>,
    pub title: Option<String>,
}

/// A car's team paint job.
pub struct TeamPaint {
    pub team: u32,
    pub primary_color: u32,
    pub accent_color: u32,
    pub primary_finish: u32,
    pub accent_finish: u32,
}

/// A boost pickup event.
pub struct PickupNew {
    pub instigator: Option<u32>,
    pub picked_up: u32,
}

/// A reference to another actor.
pub struct ActorRef {
    pub active: bool,
    pub actor: u32,
}

/// A replicated stat event.
pub struct StatEvent {
    pub unknown1: bool,
    pub object_id: u32,
}

} // verus!
