//! What the reading element works out before it reads: which flow it is
//! bound to, what the flow's definition means for the pipeline, and the
//! state that a session starts with.

use vstd::prelude::*;
use vstd::arithmetic::power2::{lemma2_to64, lemma2_to64_rest, lemma_pow2_strictly_increases, pow2};
use vstd::bits::{lemma_u64_shl_is_mul, low_bits_mask};
use crate::error::SessionError;
use crate::flow::flowdef::{FlowDefDetails, MediaKind, Rate};
use crate::mxlsrc::state::{AudioState, InitialTime, Settings, State, VideoState};
use crate::text::same_text;
use crate::translate::Rational;

verus! {

/// How long the element sleeps between two attempts to open a flow that
/// does not exist yet, in milliseconds.
pub const FLOW_RETRY_INTERVAL_MS: u64 = 10;

/// The flow that the settings name: the video flow where one is set, else
/// the audio flow.
pub open spec fn flow_of(settings: Settings) -> Option<String> {
    if settings.video_flow is Some {
        settings.video_flow
    } else {
        settings.audio_flow
    }
}

/// The identifier of the flow that the element reads; fails where the
/// settings name none.
pub fn get_flow_type_id(settings: &Settings) -> (r: Result<&String, SessionError>)
    ensures
        match r {
            Ok(id) => flow_of(*settings) == Some(*id),
            Err(e) => e == SessionError::StateError && flow_of(*settings) is None,
        },
{
    match &settings.video_flow {
        Some(id) => Ok(id),
        None => match &settings.audio_flow {
            Some(id) => Ok(id),
            None => Err(SessionError::StateError),
        },
    }
}

/// The kind of flow that a media type stands for.
pub open spec fn kind_of(media_type: Seq<char>) -> Option<MediaKind> {
    if media_type == "video/v210"@ {
        Some(MediaKind::Video)
    } else if media_type == "audio/float32"@ {
        Some(MediaKind::Audio)
    } else {
        None
    }
}

/// Says which kind of definition a flow with the given media type has;
/// `None` for a definition that names no media type, and for a media type
/// that the element cannot read.
pub fn get_flow_def_kind(media_type: Option<&str>) -> (kind: Option<MediaKind>)
    ensures
        kind == match media_type {
            Some(name) => kind_of(name@),
            None => None,
        },
{
    match media_type {
        Some(name) => {
            if same_text(name, "video/v210") {
                Some(MediaKind::Video)
            } else if same_text(name, "audio/float32") {
                Some(MediaKind::Audio)
            } else {
                None
            }
        },
        None => None,
    }
}

/// The mask of the first `channels` channel positions: as many low bits set,
/// all 64 for 64 channels and more.
pub fn generate_channel_mask_from_channels(channels: u32) -> (mask: u64)
    ensures
        mask == low_bits_mask(
            if channels >= 64 {
                64
            } else {
                channels as nat
            },
        ),
{
    proof {
        lemma2_to64();
        lemma2_to64_rest();
    }
    if channels >= 64 {
        u64::MAX
    } else {
        proof {
            if channels < 63 {
                lemma_pow2_strictly_increases(channels as nat, 63);
            }
            assert(pow2(63) == 0x8000_0000_0000_0000);
            assert(1u64 * pow2(channels as nat) <= u64::MAX);
            lemma_u64_shl_is_mul(1u64, channels as u64);
        }
        let bit: u64 = 1u64 << (channels as u64);
        bit - 1
    }
}

/// What the pipeline is told of a flow.
#[derive(Clone, Debug, PartialEq, Eq)]
pub enum Caps {
    /// Raw video.
    Video {
        format: String,
        width: i32,
        height: i32,
        framerate: Rate,
        interlace_mode: String,
        colorimetry: String,
    },
    /// Raw audio.
    Audio { format: String, rate: i32, channels: i32, layout: String, channel_mask: u64 },
}

/// `text` in lower case, as the standard library's `str::to_lowercase` gives it.
pub uninterp spec fn lowercase(text: Seq<char>) -> Seq<char>;

/// Calls `str::to_lowercase`. The contract claims only that the result
/// depends on the text alone: it is what `lowercase` names.
#[verifier::external_body]
fn to_lowercase(text: &str) -> (lower: String)
    ensures
        lower@ == lowercase(text@),
{
    text.to_lowercase()
}

/// The number of channels as a count: a negative number stands for more
/// channels than there are positions.
pub open spec fn channel_positions(channel_count: i32) -> nat {
    if channel_count < 0 || channel_count >= 64 {
        64
    } else {
        channel_count as nat
    }
}

/// Whether `caps` is what the pipeline is told of a flow with the
/// definition `details`, where `colorimetry` is the flow's colour space in
/// lower case.
pub open spec fn is_caps_of(caps: Caps, details: FlowDefDetails, colorimetry: Seq<char>) -> bool {
    match details {
        FlowDefDetails::Video(video) => {
            &&& caps matches Caps::Video {
                format,
                width,
                height,
                framerate,
                interlace_mode,
                colorimetry: colours,
            }
            &&& format@ == "v210"@
            &&& width == video.frame_width
            &&& height == video.frame_height
            &&& framerate == video.grain_rate
            &&& interlace_mode@ == "\""@ + video.interlace_mode.name() + "\""@
            &&& colours@ == colorimetry
        },
        FlowDefDetails::Audio(audio) => {
            &&& caps matches Caps::Audio { format, rate, channels, layout, channel_mask }
            &&& format@ == "F32LE"@
            &&& rate == audio.sample_rate.numerator
            &&& channels == audio.channel_count
            &&& layout@ == "interleaved"@
            &&& channel_mask == low_bits_mask(channel_positions(audio.channel_count))
        },
    }
}

/// What the pipeline is told of a video flow whose colour space in lower
/// case is `colorimetry`, or of an audio flow.
pub fn caps_with_colorimetry(details: &FlowDefDetails, colorimetry: String) -> (caps: Caps)
    ensures
        is_caps_of(caps, *details, colorimetry@),
{
    match details {
        FlowDefDetails::Video(video) => {
            let interlace_mode: String = "\"".to_owned().concat(video.interlace_mode.as_str()).concat(
                "\"",
            );
            Caps::Video {
                format: "v210".to_owned(),
                width: video.frame_width,
                height: video.frame_height,
                framerate: video.grain_rate,
                interlace_mode,
                colorimetry,
            }
        },
        FlowDefDetails::Audio(audio) => {
            let positions: u32 = if audio.channel_count < 0 {
                u32::MAX
            } else {
                audio.channel_count as u32
            };
            Caps::Audio {
                format: "F32LE".to_owned(),
                rate: audio.sample_rate.numerator,
                channels: audio.channel_count,
                layout: "interleaved".to_owned(),
                channel_mask: generate_channel_mask_from_channels(positions),
            }
        },
    }
}

/// The colour space of a video flow; the empty text for an audio flow.
pub open spec fn colorspace_of(details: FlowDefDetails) -> Seq<char> {
    match details {
        FlowDefDetails::Video(video) => video.colorspace@,
        FlowDefDetails::Audio(_) => Seq::<char>::empty(),
    }
}

/// What the pipeline is told of a flow with the definition `details`: for
/// video the frame size, the rate, the interlace mode between quotation
/// marks and the colour space in lower case; for audio the rate, the
/// channels and the mask of their positions.
pub fn set_json_caps(details: &FlowDefDetails) -> (caps: Caps)
    ensures
        is_caps_of(caps, *details, lowercase(colorspace_of(*details))),
{
    let colorimetry: String = match details {
        FlowDefDetails::Video(video) => to_lowercase(video.colorspace.as_str()),
        FlowDefDetails::Audio(_) => to_lowercase(""),
    };
    caps_with_colorimetry(details, colorimetry)
}

/// Notes that the flow to read does not exist yet. Returns whether to tell
/// the user that the element is waiting: only the first time.
pub fn flow_not_ready(warned: &mut bool) -> (notice: bool)
    ensures
        notice == !*old(warned),
        *final(warned),
{
    let notice: bool = !*warned;
    *warned = true;
    notice
}

/// The state that a session starts with, for the kind of flow that the
/// settings name.
pub open spec fn fresh_state(settings: Settings, grain_rate: Option<Rational>) -> State {
    if settings.video_flow is Some {
        State {
            initial_info: InitialTime { mxl_index: 0, gst_time: 0 },
            video: Some(
                VideoState {
                    grain_rate: grain_rate.unwrap(),
                    frame_counter: 0,
                    is_initialized: false,
                },
            ),
            audio: None,
        }
    } else {
        State {
            initial_info: InitialTime { mxl_index: 0, gst_time: 0 },
            video: None,
            audio: Some(
                AudioState { batch_counter: 0, is_initialized: false, index: 0, next_discont: false },
            ),
        }
    }
}

/// Makes the state of a session whose flow was opened. `grain_rate` is the
/// rate that the engine gave for the flow, `None` where it gave none; a
/// video flow needs it.
pub fn init(settings: &Settings, grain_rate: Option<Rational>) -> (r: Result<State, SessionError>)
    ensures
        match r {
            Ok(state) => {
                &&& flow_of(*settings) is Some
                &&& settings.video_flow is Some ==> grain_rate is Some
                &&& state == fresh_state(*settings, grain_rate)
            },
            Err(e) => if flow_of(*settings) is None {
                e == SessionError::StateError
            } else {
                &&& e == SessionError::EngineUnavailable
                &&& settings.video_flow is Some
                &&& grain_rate is None
            },
        },
{
    let initial_info: InitialTime = InitialTime { mxl_index: 0, gst_time: 0 };
    if settings.video_flow.is_some() {
        match grain_rate {
            Some(grain_rate) => Ok(
                State {
                    initial_info,
                    video: Some(VideoState { grain_rate, frame_counter: 0, is_initialized: false }),
                    audio: None,
                },
            ),
            None => Err(SessionError::EngineUnavailable),
        }
    } else if settings.audio_flow.is_some() {
        Ok(
            State {
                initial_info,
                video: None,
                audio: Some(
                    AudioState {
                        batch_counter: 0,
                        is_initialized: false,
                        index: 0,
                        next_discont: false,
                    },
                ),
            },
        )
    } else {
        Err(SessionError::StateError)
    }
}

} // verus!
