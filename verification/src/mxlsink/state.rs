//! What a writing session remembers between two buffers.

use vstd::prelude::*;
use crate::error::SessionError;
use crate::flow_id::{parse_flow_id, uuid_of};
use crate::flowdef::{Component, FlowDefAudio, FlowDefVideo, GrainRate, SampleRate};
use crate::text::{decimal, decimal_text};
use crate::translate::Rational;

verus! {

/// What the element was told to write, and where.
#[derive(Clone, Debug)]
pub struct Settings {
    pub flow_id: String,
    pub domain: String,
}

impl Default for Settings {
    fn default() -> (r: Settings)
        ensures
            r.flow_id@.len() == 0,
            r.domain@.len() == 0,
    {
        Settings { flow_id: String::new(), domain: String::new() }
    }
}

/// What the engine says of the flow that the session writes.
#[derive(Clone, Copy, Debug, PartialEq, Eq, Structural)]
pub enum FlowConfigInfo {
    /// A flow of grains.
    Discrete {
        grain_rate: Rational,
        /// The number of grains that the ring holds.
        grain_count: u32,
        /// The batch size that the engine suggests.
        max_commit_batch_size_hint: u32,
    },
    /// A flow of samples.
    Continuous {
        sample_rate: Rational,
        /// The number of frames that the ring holds for each channel.
        buffer_length: u32,
        /// The batch size that the engine suggests.
        max_commit_batch_size_hint: u32,
    },
}

impl FlowConfigInfo {
    /// The batch size that the engine suggests.
    pub open spec fn hint(self) -> u32 {
        match self {
            FlowConfigInfo::Discrete { max_commit_batch_size_hint, .. } => max_commit_batch_size_hint,
            FlowConfigInfo::Continuous {
                max_commit_batch_size_hint,
                ..
            } => max_commit_batch_size_hint,
        }
    }

    /// The batch size that the engine suggests.
    pub fn max_commit_batch_size_hint(&self) -> (hint: u32)
        ensures
            hint == self.hint(),
    {
        match self {
            FlowConfigInfo::Discrete { max_commit_batch_size_hint, .. } => *max_commit_batch_size_hint,
            FlowConfigInfo::Continuous {
                max_commit_batch_size_hint,
                ..
            } => *max_commit_batch_size_hint,
        }
    }
}

/// The index of the flow at which the session wrote its first grain.
#[derive(Clone, Copy, Debug, PartialEq, Eq, Structural)]
pub struct InitialTime {
    pub index: u64,
}

impl Default for InitialTime {
    fn default() -> (r: InitialTime)
        ensures
            r.index == 0,
    {
        InitialTime { index: 0 }
    }
}

/// The state of a session that writes grains.
#[derive(Clone, Copy, Debug, PartialEq, Eq, Structural)]
pub struct VideoState {
    /// The index of the grain that is being written, or that comes next.
    pub grain_index: u64,
    pub grain_rate: Rational,
    /// The number of grains that the ring holds.
    pub grain_count: u32,
}

/// The state of a session that writes sample batches.
#[derive(Clone, Debug, PartialEq)]
pub struct AudioState {
    pub bit_depth: u8,
    /// The number of frames in the last buffer.
    pub batch_size: usize,
    pub flow_def: FlowDefAudio,
    /// Where the next buffer is written; `None` before the first.
    pub next_write_index: Option<u64>,
}

/// The state of a writing session: the flow, once it has been created, and
/// the state of the one kind of flow that the session writes.
#[derive(Clone, Debug, PartialEq)]
pub struct State {
    pub flow: Option<FlowConfigInfo>,
    pub video: Option<VideoState>,
    pub audio: Option<AudioState>,
    pub initial_time: Option<InitialTime>,
}

/// The session of an element: `None` before it is started and after it is stopped.
#[derive(Clone, Debug, PartialEq)]
pub struct Context {
    pub state: Option<State>,
}

impl Default for Context {
    fn default() -> (r: Context)
        ensures
            r.state is None,
    {
        Context { state: None }
    }
}

/// Why no flow definition could be made.
#[derive(Clone, Copy, Debug, PartialEq, Eq, Structural)]
pub enum FlowDefError {
    /// The flow identifier spells no UUID.
    InvalidFlowId,
    /// The frame rate has a denominator that is not positive.
    InvalidFrameRate,
}

/// Whether `tags` holds one tag, `name`, with the one value `value`.
pub open spec fn is_single_tag(
    tags: Seq<(String, Vec<String>)>,
    name: Seq<char>,
    value: Seq<char>,
) -> bool {
    &&& tags.len() == 1
    &&& tags[0].0@ == name
    &&& tags[0].1@.len() == 1
    &&& tags[0].1@[0]@ == value
}

fn single_tag(name: &str, value: &str) -> (tags: Vec<(String, Vec<String>)>)
    ensures
        is_single_tag(tags@, name@, value@),
{
    let mut values: Vec<String> = Vec::new();
    values.push(value.to_owned());
    let mut tags: Vec<(String, Vec<String>)> = Vec::new();
    tags.push((name.to_owned(), values));
    tags
}

/// Whether `def` is the definition of the audio flow `id` with the given
/// number of channels, samples per second and bits per sample.
pub open spec fn is_audio_flow_def(
    def: FlowDefAudio,
    id: u128,
    channels: i32,
    rate: i32,
    bit_depth: u8,
) -> bool {
    &&& def.description@ == "MXL Audio Flow"@
    &&& def.format@ == "urn:x-nmos:format:audio"@
    &&& is_single_tag(def.tags@, "urn:x-nmos:tag:grouphint/v1.0"@, "Media Function XYZ:Audio"@)
    &&& def.label@ == "MXL Audio Flow"@
    &&& def.id == id
    &&& def.media_type@ == "audio/float32"@
    &&& def.sample_rate == (SampleRate { numerator: rate })
    &&& def.channel_count == channels
    &&& def.bit_depth == bit_depth
    &&& def.parents@.len() == 0
}

/// Makes the definition of an audio flow whose identifier is known.
pub fn audio_flow_def_with_id(id: u128, channels: i32, rate: i32, bit_depth: u8) -> (def:
    FlowDefAudio)
    ensures
        is_audio_flow_def(def, id, channels, rate, bit_depth),
{
    FlowDefAudio {
        description: "MXL Audio Flow".to_owned(),
        format: "urn:x-nmos:format:audio".to_owned(),
        tags: single_tag("urn:x-nmos:tag:grouphint/v1.0", "Media Function XYZ:Audio"),
        label: "MXL Audio Flow".to_owned(),
        id,
        media_type: "audio/float32".to_owned(),
        sample_rate: SampleRate { numerator: rate },
        channel_count: channels,
        bit_depth,
        parents: Vec::new(),
    }
}

/// Makes the definition of the audio flow that `flow_id` names; fails where
/// `flow_id` spells no UUID.
pub fn audio_flow_def(flow_id: &str, channels: i32, rate: i32, bit_depth: u8) -> (r: Result<
    FlowDefAudio,
    FlowDefError,
>)
    ensures
        match r {
            Ok(def) => uuid_of(flow_id@) is Some && is_audio_flow_def(
                def,
                uuid_of(flow_id@).unwrap(),
                channels,
                rate,
                bit_depth,
            ),
            Err(e) => e == FlowDefError::InvalidFlowId && uuid_of(flow_id@) is None,
        },
{
    match parse_flow_id(flow_id) {
        Some(id) => Ok(audio_flow_def_with_id(id, channels, rate, bit_depth)),
        None => Err(FlowDefError::InvalidFlowId),
    }
}

/// Binds the session to the audio flow that the engine created from
/// `flow_def`: `flow` is what the engine says of it.
pub fn init_state_with_audio(state: &mut State, flow_def: FlowDefAudio, flow: FlowConfigInfo)
    ensures
        final(state).flow == Some(flow),
        final(state).audio == Some(
            AudioState {
                bit_depth: flow_def.bit_depth,
                batch_size: flow.hint() as usize,
                flow_def,
                next_write_index: None,
            },
        ),
        final(state).video == old(state).video,
        final(state).initial_time == old(state).initial_time,
{
    let bit_depth: u8 = flow_def.bit_depth;
    state.audio = Some(
        AudioState {
            bit_depth,
            batch_size: flow.max_commit_batch_size_hint() as usize,
            flow_def,
            next_write_index: None,
        },
    );
    state.flow = Some(flow);
}

/// What the pipeline negotiated for a video stream; a field is `None` where
/// the pipeline left it open.
#[derive(Clone, Debug, PartialEq)]
pub struct VideoCaps {
    pub format: Option<String>,
    pub width: Option<i32>,
    pub height: Option<i32>,
    pub framerate: Option<GrainRate>,
    pub interlace_mode: Option<String>,
    pub colorimetry: Option<String>,
}

impl VideoCaps {
    pub open spec fn format_or_default(self) -> Seq<char> {
        match self.format {
            Some(format) => format@,
            None => "v210"@,
        }
    }

    pub open spec fn width_or_default(self) -> i32 {
        match self.width {
            Some(width) => width,
            None => 1920,
        }
    }

    pub open spec fn height_or_default(self) -> i32 {
        match self.height {
            Some(height) => height,
            None => 1080,
        }
    }

    pub open spec fn framerate_or_default(self) -> GrainRate {
        match self.framerate {
            Some(framerate) => framerate,
            None => GrainRate { numerator: 30000, denominator: 1001 },
        }
    }

    pub open spec fn interlace_mode_or_default(self) -> Seq<char> {
        match self.interlace_mode {
            Some(mode) => mode@,
            None => "progressive"@,
        }
    }

    pub open spec fn colorimetry_or_default(self) -> Seq<char> {
        match self.colorimetry {
            Some(colorimetry) => colorimetry@,
            None => "BT709"@,
        }
    }
}

/// The quotient of a number by a positive one, rounded towards zero.
pub open spec fn quotient(a: int, b: int) -> int {
    if a >= 0 {
        a / b
    } else {
        -((-a) / b)
    }
}

/// Whether `component` is the plane `name` of the given size, 10 bits deep.
pub open spec fn is_component(component: Component, name: Seq<char>, width: int, height: int) -> bool {
    &&& component.name@ == name
    &&& component.width == width
    &&& component.height == height
    &&& component.bit_depth == 10
}

/// Whether `def` is the definition of the video flow `flow_id` for the
/// stream that `caps` describes. The flow's description and label end with
/// the whole number of frames per second.
pub open spec fn is_video_flow_def(def: FlowDefVideo, caps: VideoCaps, flow_id: Seq<char>) -> bool {
    let width: i32 = caps.width_or_default();
    let height: i32 = caps.height_or_default();
    let rate: GrainRate = caps.framerate_or_default();
    let frames: Seq<char> = decimal(quotient(rate.numerator as int, rate.denominator as int));
    &&& def.description@ == "MXL Test Flow, 1080p"@ + frames
    &&& def.id@ == flow_id
    &&& is_single_tag(def.tags@, "urn:x-nmos:tag:grouphint/v1.0"@, "Media Function XYZ:Video"@)
    &&& def.format@ == "urn:x-nmos:format:video"@
    &&& def.label@ == "MXL Test Flow, 1080p"@ + frames
    &&& def.parents@.len() == 0
    &&& def.media_type@ == "video/"@ + caps.format_or_default()
    &&& def.grain_rate == caps.framerate_or_default()
    &&& def.frame_width == width
    &&& def.frame_height == height
    &&& def.interlace_mode@ == caps.interlace_mode_or_default()
    &&& def.colorspace@ == caps.colorimetry_or_default()
    &&& def.components@.len() == 3
    &&& is_component(def.components@[0], "Y"@, width as int, height as int)
    &&& is_component(def.components@[1], "Cb"@, quotient(width as int, 2), height as int)
    &&& is_component(def.components@[2], "Cr"@, quotient(width as int, 2), height as int)
}

/// Makes the definition of the video flow `flow_id` for the stream that
/// `caps` describes, with the usual values where `caps` leaves a field open.
/// Fails where the frame rate has a denominator that is not positive.
pub fn video_flow_def(caps: &VideoCaps, flow_id: &str) -> (r: Result<FlowDefVideo, FlowDefError>)
    ensures
        match r {
            Ok(def) => {
                &&& caps.framerate_or_default().denominator > 0
                &&& is_video_flow_def(def, *caps, flow_id@)
            },
            Err(e) => {
                let rate: GrainRate = caps.framerate_or_default();
                &&& e == FlowDefError::InvalidFrameRate
                &&& rate.denominator <= 0
            },
        },
{
    let format: String = match &caps.format {
        Some(format) => format.clone(),
        None => "v210".to_owned(),
    };
    let width: i32 = match caps.width {
        Some(width) => width,
        None => 1920,
    };
    let height: i32 = match caps.height {
        Some(height) => height,
        None => 1080,
    };
    let framerate: GrainRate = match caps.framerate {
        Some(framerate) => framerate,
        None => GrainRate { numerator: 30000, denominator: 1001 },
    };
    let interlace_mode: String = match &caps.interlace_mode {
        Some(mode) => mode.clone(),
        None => "progressive".to_owned(),
    };
    let colorimetry: String = match &caps.colorimetry {
        Some(colorimetry) => colorimetry.clone(),
        None => "BT709".to_owned(),
    };
    if framerate.denominator <= 0 {
        return Err(FlowDefError::InvalidFrameRate);
    }
    let whole: i32 = framerate.numerator / framerate.denominator;
    let frames: String = decimal_text(whole);
    let description: String = "MXL Test Flow, 1080p".to_owned().concat(frames.as_str());
    let label: String = description.clone();
    let media_type: String = "video/".to_owned().concat(format.as_str());
    let mut components: Vec<Component> = Vec::new();
    components.push(Component { name: "Y".to_owned(), width, height, bit_depth: 10 });
    components.push(Component { name: "Cb".to_owned(), width: width / 2, height, bit_depth: 10 });
    components.push(Component { name: "Cr".to_owned(), width: width / 2, height, bit_depth: 10 });
    let def: FlowDefVideo = FlowDefVideo {
        description,
        id: flow_id.to_owned(),
        tags: single_tag("urn:x-nmos:tag:grouphint/v1.0", "Media Function XYZ:Video"),
        format: "urn:x-nmos:format:video".to_owned(),
        label,
        parents: Vec::new(),
        media_type,
        grain_rate: framerate,
        frame_width: width,
        frame_height: height,
        interlace_mode,
        colorspace: colorimetry,
        components,
    };
    Ok(def)
}

/// Binds the session to the video flow that the engine created: `flow` is
/// what the engine says of it and `current_index` the flow's current index.
/// Fails, and changes nothing, where `flow` is no flow of grains.
pub fn init_state_with_video(state: &mut State, flow: FlowConfigInfo, current_index: u64) -> (r:
    Result<(), SessionError>)
    ensures
        match r {
            Ok(_) => {
                &&& flow matches FlowConfigInfo::Discrete { grain_rate, grain_count, .. }
                &&& final(state).flow == Some(flow)
                &&& final(state).video == Some(
                    VideoState { grain_index: current_index, grain_rate, grain_count },
                )
                &&& final(state).audio == old(state).audio
                &&& final(state).initial_time == old(state).initial_time
            },
            Err(e) => {
                &&& e == SessionError::EngineUnavailable
                &&& flow is Continuous
                &&& *final(state) == *old(state)
            },
        },
{
    match flow {
        FlowConfigInfo::Discrete { grain_rate, grain_count, .. } => {
            state.video = Some(VideoState { grain_index: current_index, grain_rate, grain_count });
            state.flow = Some(flow);
            Ok(())
        },
        FlowConfigInfo::Continuous { .. } => Err(SessionError::EngineUnavailable),
    }
}

} // verus!
