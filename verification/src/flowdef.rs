//! The definition of a flow as a writer hands it to the flow engine when it
//! creates the flow.

use vstd::prelude::*;

verus! {

#[derive(Clone, Copy, Debug, PartialEq, Eq, Structural)]
pub struct GrainRate {
    pub numerator: i32,
    pub denominator: i32,
}

#[derive(Clone, Debug, PartialEq)]
pub struct Component {
    pub name: String,
    pub width: i32,
    pub height: i32,
    pub bit_depth: u8,
}

#[derive(Clone, Debug, PartialEq)]
pub struct FlowDefVideo {
    pub description: String,
    pub id: String,
    /// Tag names with their values, each name at most once.
    pub tags: Vec<(String, Vec<String>)>,
    pub format: String,
    pub label: String,
    pub parents: Vec<String>,
    pub media_type: String,
    pub grain_rate: GrainRate,
    pub frame_width: i32,
    pub frame_height: i32,
    pub interlace_mode: String,
    pub colorspace: String,
    pub components: Vec<Component>,
}

#[derive(Clone, Copy, Debug, PartialEq, Eq, Structural)]
pub struct SampleRate {
    pub numerator: i32,
}

#[derive(Clone, Debug, PartialEq)]
pub struct FlowDefAudio {
    pub description: String,
    pub format: String,
    /// Tag names with their values, each name at most once.
    pub tags: Vec<(String, Vec<String>)>,
    pub label: String,
    /// The flow's identifier: the 128 bits of its UUID.
    pub id: u128,
    pub media_type: String,
    pub sample_rate: SampleRate,
    pub channel_count: i32,
    pub bit_depth: u8,
    pub parents: Vec<String>,
}

/// The definition of the flow that a writer is bound to: one of the two.
#[derive(Clone, Debug, PartialEq)]
pub struct FlowDef {
    pub video: Option<FlowDefVideo>,
    pub audio: Option<FlowDefAudio>,
}

} // verus!
