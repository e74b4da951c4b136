//! Writing one grain: which index it is committed at, and how much of it.
//!
//! The writer keeps no clock of its own: whoever hands it buffers is taken
//! to pace them. The index of a grain follows from its presentation
//! timestamp alone, counted from the index that the flow had reached when
//! the session wrote its first grain. An index that lies too far ahead of
//! the flow is pulled back into the ring. An index that lies behind the
//! flow is left where it is: unlike the reader, the writer does not move
//! its anchor forward.
//!
//! How many slices of a grain are committed is a choice made here on
//! purpose: only those that the copy has filled completely, so that a
//! reader is never told of a slice that holds no data.

use vstd::prelude::*;
use crate::error::SessionError;
use crate::mxlsink::state::{InitialTime, State, VideoState};
use crate::translate::{index_of_timestamp, timestamp_to_index};

verus! {

/// Whether the session can write grains: its flow was created, and it is a
/// flow of grains.
pub open spec fn can_write_video(state: State) -> bool {
    state.flow is Some && state.video is Some
}

/// The index from which the session counts its grains: the flow's current
/// index when the first grain was written.
pub open spec fn anchor_index(state: State, current_index: u64) -> u64 {
    match state.initial_time {
        Some(initial) => initial.index,
        None => current_index,
    }
}

/// The index that a presentation timestamp of `pts` nanoseconds stands for.
pub open spec fn index_of_pts(state: State, current_index: u64, pts: u64) -> int {
    index_of_timestamp(pts as int, state.video.unwrap().grain_rate) + anchor_index(
        state,
        current_index,
    )
}

/// An index kept within the ring: one that is more than `window` grains
/// ahead of the flow's current index becomes the last that the ring can
/// hold.
pub open spec fn clamped(index: int, current_index: int, window: int) -> int {
    if index > current_index && index - current_index > window {
        current_index + window - 1
    } else {
        index
    }
}

/// The index at which a grain is committed: that of its timestamp, kept
/// within the ring, or the flow's current index for a grain without one.
pub open spec fn commit_index(state: State, current_index: u64, pts: Option<u64>) -> int {
    match pts {
        Some(pts) => clamped(
            index_of_pts(state, current_index, pts),
            current_index as int,
            state.video.unwrap().grain_count as int,
        ),
        None => current_index as int,
    }
}

/// What `video` returns.
pub open spec fn video_result(state: State, current_index: u64, pts: Option<u64>) -> Result<
    u64,
    SessionError,
> {
    if !can_write_video(state) {
        Err(SessionError::StateError)
    } else if pts is Some && !state.video.unwrap().grain_rate.valid() {
        Err(SessionError::InvalidRate)
    } else if pts is Some && (index_of_pts(state, current_index, pts.unwrap()) > u64::MAX
        || commit_index(state, current_index, pts) < 0) {
        Err(SessionError::OutOfRange)
    } else {
        Ok(commit_index(state, current_index, pts) as u64)
    }
}

/// Chooses the index at which the next grain is committed and remembers it;
/// the first call also fixes the index from which the session counts.
/// `current_index` is the flow's current index and `pts` the presentation
/// timestamp of the grain, in nanoseconds. A call that fails changes nothing.
pub fn video(state: &mut State, current_index: u64, pts: Option<u64>) -> (r: Result<
    u64,
    SessionError,
>)
    ensures
        r == video_result(*old(state), current_index, pts),
        match r {
            Ok(index) => {
                &&& pts is Some ==> index <= current_index + old(state).video.unwrap().grain_count
                &&& final(state).flow == old(state).flow
                &&& final(state).audio == old(state).audio
                &&& final(state).initial_time == Some(
                    InitialTime { index: anchor_index(*old(state), current_index) },
                )
                &&& final(state).video == Some(
                    VideoState { grain_index: index, ..old(state).video.unwrap() },
                )
            },
            Err(_) => *final(state) == *old(state),
        },
{
    if state.flow.is_none() {
        return Err(SessionError::StateError);
    }
    let mut video_state: VideoState = match state.video {
        Some(video_state) => video_state,
        None => {
            return Err(SessionError::StateError);
        },
    };
    let initial: InitialTime = match state.initial_time {
        Some(initial) => initial,
        None => InitialTime { index: current_index },
    };
    let index: u64 = match pts {
        Some(pts) => {
            let offset: u64 = match timestamp_to_index(pts, &video_state.grain_rate) {
                Ok(offset) => offset,
                Err(e) => {
                    return Err(SessionError::from_translation(e));
                },
            };
            let index: u64 = match offset.checked_add(initial.index) {
                Some(index) => index,
                None => {
                    return Err(SessionError::OutOfRange);
                },
            };
            if index > current_index && index - current_index > video_state.grain_count as u64 {
                if video_state.grain_count == 0 && current_index == 0 {
                    return Err(SessionError::OutOfRange);
                }
                current_index + video_state.grain_count as u64 - 1
            } else {
                index
            }
        },
        None => current_index,
    };
    video_state.grain_index = index;
    state.initial_time = Some(initial);
    state.video = Some(video_state);
    Ok(index)
}

/// Counts the grain that was committed: the next one follows it.
pub fn video_written(state: &mut State) -> (r: Result<(), SessionError>)
    ensures
        match r {
            Ok(_) => {
                &&& old(state).video is Some
                &&& old(state).video.unwrap().grain_index < u64::MAX
                &&& final(state).flow == old(state).flow
                &&& final(state).audio == old(state).audio
                &&& final(state).initial_time == old(state).initial_time
                &&& final(state).video == Some(
                    VideoState {
                        grain_index: (old(state).video.unwrap().grain_index + 1) as u64,
                        ..old(state).video.unwrap()
                    },
                )
            },
            Err(e) => {
                &&& *final(state) == *old(state)
                &&& if old(state).video is None {
                    e == SessionError::StateError
                } else {
                    e == SessionError::OutOfRange && old(state).video.unwrap().grain_index
                        == u64::MAX
                }
            },
        },
{
    let mut video_state: VideoState = match state.video {
        Some(video_state) => video_state,
        None => {
            return Err(SessionError::StateError);
        },
    };
    if video_state.grain_index == u64::MAX {
        return Err(SessionError::OutOfRange);
    }
    video_state.grain_index = video_state.grain_index + 1;
    state.video = Some(video_state);
    Ok(())
}

/// The number of slices of a grain that are complete once its first
/// `copied` bytes are written, for a payload of `payload_len` bytes in
/// `total_slices` slices of equal length.
pub open spec fn committed_slices(copied: int, payload_len: int, total_slices: int) -> int {
    if payload_len == 0 {
        0
    } else {
        copied * total_slices / payload_len
    }
}

proof fn lemma_committed_slices_bound(copied: int, payload_len: int, total_slices: int)
    by (nonlinear_arith)
    requires
        0 <= copied <= payload_len,
        0 < payload_len,
        0 <= total_slices,
    ensures
        0 <= copied * total_slices / payload_len <= total_slices,
        0 <= copied * total_slices <= payload_len * total_slices,
{
}

/// Copies a buffer into the payload of a grain, as far as both reach, and
/// says how many slices to commit: those that the copy has filled, never
/// more than the grain has.
pub fn commit_buffer(data: &[u8], payload: &mut [u8], total_slices: u16) -> (count: u16)
    ensures
        ({
            let copy_len: int = if old(payload)@.len() <= data@.len() {
                old(payload)@.len() as int
            } else {
                data@.len() as int
            };
            &&& final(payload)@ == data@.subrange(0, copy_len) + old(payload)@.subrange(
                copy_len,
                old(payload)@.len() as int,
            )
            &&& count == committed_slices(copy_len, old(payload)@.len() as int, total_slices as int)
            &&& count <= total_slices
        }),
{
    let payload_len: usize = payload.len();
    let data_len: usize = data.len();
    let copy_len: usize = if payload_len <= data_len {
        payload_len
    } else {
        data_len
    };
    let mut i: usize = 0;
    while i < copy_len
        invariant
            i <= copy_len,
            copy_len <= payload_len,
            copy_len <= data_len,
            payload_len == old(payload)@.len(),
            data_len == data@.len(),
            payload@.len() == payload_len,
            forall|j: int| 0 <= j < i ==> payload@[j] == data@[j],
            forall|j: int| i <= j < payload_len ==> payload@[j] == old(payload)@[j],
        decreases copy_len - i,
    {
        payload[i] = data[i];
        i += 1;
    }
    assert(payload@ =~= data@.subrange(0, copy_len as int) + old(payload)@.subrange(
        copy_len as int,
        old(payload)@.len() as int,
    ));
    if payload_len == 0 {
        return 0;
    }
    proof {
        lemma_committed_slices_bound(copy_len as int, payload_len as int, total_slices as int);
        assert(payload_len * total_slices <= usize::MAX * 0xffff) by (nonlinear_arith)
            requires
                0 <= payload_len <= usize::MAX,
                0 <= total_slices <= 0xffff,
        ;
    }
    let filled: u128 = (copy_len as u128) * (total_slices as u128) / (payload_len as u128);
    filled as u16
}

} // verus!
