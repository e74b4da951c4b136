//! One cycle of a session that reads grains.
//!
//! The embedding program asks the engine for the flow's current index and the
//! pipeline for its running time, asks `next_frame_index` which grain to
//! wait for, waits for it, and hands what came back to `create_video`.

use vstd::prelude::*;
use crate::error::SessionError;
use crate::mxlsrc::imp::{Buffer, CreateState};
use crate::mxlsrc::state::{later, InitialTime, State, VideoState};
use crate::translate::{index_to_timestamp, lemma_origin, lemma_timestamp_of_index_is_monotonic, period_of, Rational};

verus! {

/// How long a cycle waits for a complete grain, in nanoseconds.
pub const GET_GRAIN_TIMEOUT: u64 = 5_000_000_000;

/// The flag with which the engine marks a grain whose content is invalid.
pub const MXL_GRAIN_FLAG_INVALID: u32 = 0x00000001;

/// A grain as the engine handed it out.
#[derive(Clone, Debug, PartialEq, Eq)]
pub struct GrainData {
    pub flags: u32,
    pub payload: Vec<u8>,
}

impl GrainData {
    pub open spec fn invalid(&self) -> bool {
        self.flags & MXL_GRAIN_FLAG_INVALID != 0
    }

    /// Whether the engine marked the grain's content as invalid.
    pub fn is_invalid(&self) -> (b: bool)
        ensures
            b == self.invalid(),
    {
        self.flags & MXL_GRAIN_FLAG_INVALID != 0
    }
}

/// The state at the start of a cycle, once the anchor is set: a session that
/// has none yet takes the flow's current index and the pipeline's running
/// time as its anchor; any other session is unchanged.
pub open spec fn anchored(state: State, current_index: u64, now: u64) -> State {
    match state.video {
        Some(video) if !video.is_initialized => State {
            initial_info: InitialTime { mxl_index: current_index, gst_time: now },
            video: Some(VideoState { is_initialized: true, ..video }),
            audio: state.audio,
        },
        _ => state,
    }
}

/// The index of the grain that the next cycle asks for: as many grains after
/// the anchor as were handed out, but never one that the flow has already
/// left behind.
pub open spec fn target_index(state: State, current_index: u64) -> int {
    let video: VideoState = state.video.unwrap();
    let start: int = if video.is_initialized {
        state.initial_info.mxl_index as int
    } else {
        current_index as int
    };
    later(start + video.frame_counter, current_index as int)
}

/// What one cycle returns: a failure, nothing, or the timestamp of the buffer.
pub open spec fn video_result(
    state: State,
    current_index: u64,
    ts_gst: Option<u64>,
    grain: Option<GrainData>,
) -> Result<Option<u64>, SessionError> {
    if state.video is None {
        Err(SessionError::StateError)
    } else if ts_gst is None {
        Err(SessionError::EngineUnavailable)
    } else if grain is None {
        Ok(None)
    } else if grain.unwrap().invalid() {
        Err(SessionError::InvalidContent)
    } else {
        let start: State = anchored(state, current_index, ts_gst.unwrap());
        let video: VideoState = start.video.unwrap();
        let period: int = period_of(1, video.grain_rate);
        if !video.grain_rate.valid() {
            Err(SessionError::InvalidRate)
        } else if period > u64::MAX || start.initial_info.planned(
            video.frame_counter as int,
            period,
        ) > u64::MAX || video.frame_counter == u64::MAX {
            Err(SessionError::OutOfRange)
        } else {
            Ok(
                Some(
                    start.initial_info.stamped(
                        video.frame_counter as int,
                        period,
                        ts_gst.unwrap() as int,
                    ) as u64,
                ),
            )
        }
    }
}

/// The state that one cycle leaves behind. A cycle changes nothing before
/// the anchor is due; from then on the anchor stays set, and only a cycle
/// that produced a buffer counts it and corrects the anchor for drift.
pub open spec fn video_state_after(
    state: State,
    current_index: u64,
    ts_gst: Option<u64>,
    grain: Option<GrainData>,
) -> State {
    if state.video is None || ts_gst is None {
        state
    } else {
        let start: State = anchored(state, current_index, ts_gst.unwrap());
        let video: VideoState = start.video.unwrap();
        let period: int = period_of(1, video.grain_rate);
        match video_result(state, current_index, ts_gst, grain) {
            Ok(Some(_)) => State {
                initial_info: start.initial_info.corrected(
                    video.frame_counter as int,
                    period,
                    ts_gst.unwrap() as int,
                ),
                video: Some(VideoState { frame_counter: (video.frame_counter + 1) as u64, ..video }),
                audio: start.audio,
            },
            _ => start,
        }
    }
}

/// Says which grain the cycle has to ask the engine for.
pub fn next_frame_index(state: &State, current_index: u64) -> (r: Result<u64, SessionError>)
    ensures
        match r {
            Ok(index) => state.video is Some && index == target_index(*state, current_index),
            Err(e) => if state.video is None {
                e == SessionError::StateError
            } else {
                e == SessionError::OutOfRange && target_index(*state, current_index) > u64::MAX
            },
        },
{
    match &state.video {
        None => Err(SessionError::StateError),
        Some(video) => {
            let start: u64 = if video.is_initialized {
                state.initial_info.mxl_index
            } else {
                current_index
            };
            match start.checked_add(video.frame_counter) {
                None => Err(SessionError::OutOfRange),
                Some(next) => if next < current_index {
                    Ok(current_index)
                } else {
                    Ok(next)
                },
            }
        },
    }
}

/// Ends one cycle: `grain` is what the wait for the grain at
/// `next_frame_index` gave, `None` where it ran out of time or the engine
/// failed.
pub fn create_video(
    state: &mut State,
    current_index: u64,
    ts_gst: Option<u64>,
    grain: Option<GrainData>,
) -> (r: Result<CreateState, SessionError>)
    ensures
        *final(state) == video_state_after(*old(state), current_index, ts_gst, grain),
        match r {
            Ok(created) => {
                &&& video_result(*old(state), current_index, ts_gst, grain) == Ok::<
                    Option<u64>,
                    SessionError,
                >(created.pts())
                &&& created matches CreateState::DataCreated(buffer) ==> {
                    &&& !buffer.discont
                    &&& buffer.data@ == grain.unwrap().payload@
                }
            },
            Err(e) => video_result(*old(state), current_index, ts_gst, grain) == Err::<
                Option<u64>,
                SessionError,
            >(e),
        },
{
    let mut video: VideoState = match state.video {
        Some(video) => video,
        None => {
            return Err(SessionError::StateError);
        },
    };
    let now: u64 = match ts_gst {
        Some(now) => now,
        None => {
            return Err(SessionError::EngineUnavailable);
        },
    };
    if !video.is_initialized {
        state.initial_info = InitialTime { mxl_index: current_index, gst_time: now };
        video.is_initialized = true;
        state.video = Some(video);
    }
    let grain: GrainData = match grain {
        Some(grain) => grain,
        None => {
            return Ok(CreateState::NoDataCreated);
        },
    };
    if grain.is_invalid() {
        return Err(SessionError::InvalidContent);
    }
    let period: u64 = match index_to_timestamp(1, &video.grain_rate) {
        Ok(period) => period,
        Err(e) => {
            return Err(SessionError::from_translation(e));
        },
    };
    if video.frame_counter == u64::MAX {
        return Err(SessionError::OutOfRange);
    }
    let pts: u64 = state.initial_info.stamp(video.frame_counter, period, now)?;
    video.frame_counter = video.frame_counter + 1;
    state.video = Some(video);
    Ok(CreateState::DataCreated(Buffer { pts, discont: false, data: grain.payload }))
}

/// The anchor is set in the first cycle and in no later one. A cycle that
/// finds the pipeline clock leaves a session with its anchor set; where it
/// set the anchor itself, the anchor is the flow's current index and the
/// pipeline's running time; and where the anchor was set before and the
/// planned timestamp has not fallen behind the running time, the anchor is
/// as it was.
pub proof fn lemma_video_anchor_is_set_once(
    state: State,
    current_index: u64,
    now: u64,
    grain: Option<GrainData>,
)
    requires
        state.video is Some,
    ensures
        ({
            let after: State = video_state_after(state, current_index, Some(now), grain);
            let video: VideoState = state.video.unwrap();
            &&& after.video.unwrap().is_initialized
            &&& !video.is_initialized ==> after.initial_info == (InitialTime {
                mxl_index: current_index,
                gst_time: now,
            })
            &&& video.is_initialized ==> after.initial_info.mxl_index
                == state.initial_info.mxl_index
            &&& video.is_initialized && state.initial_info.planned(
                video.frame_counter as int,
                period_of(1, video.grain_rate),
            ) >= now ==> after.initial_info == state.initial_info
        }),
{
    let video: VideoState = state.video.unwrap();
    let period: int = period_of(1, video.grain_rate);
    if video_result(state, current_index, Some(now), grain) matches Ok(Some(_)) {
        lemma_origin(video.grain_rate);
        lemma_timestamp_of_index_is_monotonic(0, 1, video.grain_rate);
        assert(0 <= video.frame_counter * period) by (nonlinear_arith)
            requires
                0 <= video.frame_counter,
                0 <= period,
        ;
    }
}

} // verus!
