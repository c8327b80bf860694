//! Small shared pieces of the decoded replay's data model.

use vstd::prelude::*;

verus! {

/// A class index of the replay's class table.
pub struct Index {
    pub class: String,
    pub index: usize,
}

/// A tick mark of the replay's timeline (a goal, a save, ...).
pub struct TickMark {
    pub description: String,
    pub frame: u32,
}

/// A cached network-attribute layout entry.
pub struct NetCache {
    pub object_ind: u32,
    pub parent_id: u32,
    pub cache_id: u32,
    pub properties: Vec<Property>,
}

/// One attribute's object and stream identifiers.
pub struct Property {
    pub object_ind: u32,
    pub stream_id: u32,
}

/// A platform-specific remote identity.
pub struct RemoteId {
    pub steam: String,
}

/// A platform identity with its system and local parts.
pub struct UniqueId {
    pub system_id: u8,
    pub remote_id: RemoteId,
    pub local_id: u32,
}

} // verus!
