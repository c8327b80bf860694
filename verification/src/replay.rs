//! The decoded replay object as the pipeline receives it: a few header
//! scalars, the ordered property list, and the optional frame stream.

use vstd::prelude::*;

use crate::frames::NetworkFrames;
use crate::props::PropList;

verus! {

/// A decoded match replay.
pub struct Replay {
    pub header_size: i32,
    pub header_crc: u32,
    pub major_version: i32,
    pub minor_version: i32,
    pub properties: PropList,
    pub network_frames: Option<NetworkFrames>,
}

/// The frame stream of a replay, or the empty stream when network data was
/// not requested or not available.
pub open spec fn spec_frames_of(replay: Replay) -> Seq<crate::frames::Frame> {
    match replay.network_frames {
        Some(nf) => nf.frames@,
        None => Seq::empty(),
    }
}

} // verus!
