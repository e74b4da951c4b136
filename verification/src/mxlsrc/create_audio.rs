//! One cycle of a session that reads batches of samples.
//!
//! A cycle runs in four steps, and the embedding program does the waiting and
//! the reading between them:
//!
//! 1. `begin_audio` fixes the batch size and, in the first cycle, sets the
//!    anchor and the place to read from.
//! 2. While `wait_for_sample` says so, the program reads the ring's head
//!    index again.
//! 3. `plan_audio_read` checks whether the reader has fallen out of the part
//!    of the ring that is still retained; if so it jumps forward and sets the
//!    anchor anew. It says from where to read.
//! 4. The program reads the batch, and `create_audio` turns what came back
//!    into a buffer for the pipeline.

use vstd::prelude::*;
use crate::error::SessionError;
use crate::mxlsrc::imp::{Buffer, CreateState};
use crate::mxlsrc::state::{AudioState, InitialTime, State};
use crate::ring::{ChannelPlanes, RingWindow};
use crate::translate::{
    index_to_timestamp,
    lemma_timestamp_of_index_is_monotonic,
    period_of,
    timestamp_of_index,
    Rational,
};

verus! {

/// How long a cycle waits for a batch of samples, in nanoseconds.
pub const GET_SAMPLE_TIMEOUT: u64 = 2_000_000_000;

/// How long a cycle waits for the producer to get ahead, in nanoseconds.
pub const PRODUCER_TIMEOUT: u64 = 100_000_000;

/// The number of frames in a batch, unless the ring asks for fewer.
pub const DEFAULT_BATCH_SIZE: u32 = 48;

/// The bytes of one sample: a 32-bit float.
pub const SAMPLE_SIZE: usize = 4;

/// `a - b`, or 0 where `b` is the larger.
pub open spec fn minus_or_zero(a: int, b: int) -> int {
    if a >= b {
        a - b
    } else {
        0
    }
}

/// The number of frames to read in one batch from a ring of `buffer_length`
/// frames whose writer hints at batches of `hint` frames: the default, but
/// no more than half the ring and no more than the hint.
pub open spec fn batch_of(buffer_length: u32, hint: u32) -> int {
    let half: int = buffer_length as int / 2;
    let least: int = if DEFAULT_BATCH_SIZE <= half {
        DEFAULT_BATCH_SIZE as int
    } else {
        half
    };
    if least <= hint {
        least
    } else {
        hint as int
    }
}

/// The oldest index whose batch the ring still retains: a batch less than a
/// full ring behind the head.
pub open spec fn oldest_valid(head: u64, batch: u64, ring: u64) -> int {
    minus_or_zero(head as int, minus_or_zero(ring as int, batch as int))
}

/// Where a reader that fell behind goes on: two batches behind the head.
pub open spec fn cushioned(head: u64, batch: u64) -> int {
    minus_or_zero(head as int, 2 * batch)
}

/// Chooses the number of frames to read in one batch.
pub fn batch_size(buffer_length: u32, hint: u32) -> (batch: u32)
    ensures
        batch == batch_of(buffer_length, hint),
        2 * batch <= buffer_length,
{
    let half: u32 = buffer_length / 2;
    let least: u32 = if DEFAULT_BATCH_SIZE <= half {
        DEFAULT_BATCH_SIZE
    } else {
        half
    };
    if least <= hint {
        least
    } else {
        hint
    }
}

/// Sets the anchor and the place to read from, unless that was done before:
/// the anchor is the engine's time and the pipeline's running time, and
/// reading starts one batch behind the head.
pub fn audio_state_init(
    initial_info: &mut InitialTime,
    engine_time: u64,
    ts_gst: u64,
    batch: u64,
    head: u64,
    audio_state: &mut AudioState,
)
    ensures
        old(audio_state).is_initialized ==> (*final(audio_state) == *old(audio_state)
            && *final(initial_info) == *old(initial_info)),
        !old(audio_state).is_initialized ==> ({
            &&& *final(initial_info) == (InitialTime { mxl_index: engine_time, gst_time: ts_gst })
            &&& *final(audio_state) == (AudioState {
                batch_counter: 0,
                is_initialized: true,
                index: minus_or_zero(head as int, batch as int) as u64,
                next_discont: old(audio_state).next_discont,
            })
        }),
{
    if !audio_state.is_initialized {
        *initial_info = InitialTime { mxl_index: engine_time, gst_time: ts_gst };
        audio_state.index = head.saturating_sub(batch);
        audio_state.is_initialized = true;
        audio_state.batch_counter = 0;
    }
}

/// Sets the anchor anew after a jump: batches are counted from zero again,
/// and the next buffer is marked as a discontinuity.
pub fn resync_state(
    ts_gst: u64,
    initial_info: &mut InitialTime,
    engine_time: u64,
    audio_state: &mut AudioState,
)
    ensures
        *final(initial_info) == (InitialTime { mxl_index: engine_time, gst_time: ts_gst }),
        *final(audio_state) == (AudioState {
            batch_counter: 0,
            next_discont: true,
            ..*old(audio_state)
        }),
{
    initial_info.gst_time = ts_gst;
    initial_info.mxl_index = engine_time;
    audio_state.batch_counter = 0;
    audio_state.next_discont = true;
}

/// Whether the cycle has to go on waiting for the producer: the batch to
/// read reaches past `head`, and no more than `PRODUCER_TIMEOUT` has gone by
/// (`elapsed`, in nanoseconds) since the wait began.
pub fn wait_for_sample(head: u64, batch: u64, audio_state: &AudioState, elapsed: u64) -> (wait:
    bool)
    ensures
        wait == (audio_state.index + batch > head && elapsed <= PRODUCER_TIMEOUT),
{
    let ahead: bool = match audio_state.index.checked_add(batch) {
        Some(end) => end > head,
        None => true,
    };
    ahead && elapsed <= PRODUCER_TIMEOUT
}

/// Where a reader that fell behind goes on.
pub fn define_cushion(head: u64, batch: u64) -> (target: u64)
    ensures
        target == cushioned(head, batch),
{
    let cushion: u64 = match batch.checked_mul(2) {
        Some(c) => c,
        None => u64::MAX,
    };
    head.saturating_sub(cushion)
}

/// Moves the place to read from to two batches behind the head.
pub fn catch_up(head: u64, batch: u64, audio_state: &mut AudioState)
    ensures
        *final(audio_state) == (AudioState {
            index: cushioned(head, batch) as u64,
            ..*old(audio_state)
        }),
{
    let target: u64 = define_cushion(head, batch);
    audio_state.index = target;
}

/// Checks whether the batch to read has left the part of the ring that is
/// still retained, and if so moves the place to read from forward.
pub fn is_reader_late(head: u64, batch: u64, ring: u64, audio_state: &mut AudioState) -> (late:
    bool)
    ensures
        late == (old(audio_state).index < oldest_valid(head, batch, ring)),
        late ==> *final(audio_state) == (AudioState {
            index: cushioned(head, batch) as u64,
            ..*old(audio_state)
        }),
        late && 2 * batch <= ring ==> final(audio_state).index + batch <= head,
        !late ==> *final(audio_state) == *old(audio_state),
{
    let oldest: u64 = head.saturating_sub(ring.saturating_sub(batch));
    if audio_state.index < oldest {
        catch_up(head, batch, audio_state);
        true
    } else {
        false
    }
}

/// After a jump the whole batch lies behind the head, whenever a batch is no
/// more than half the ring.
pub proof fn lemma_catch_up_leaves_cushion(index: u64, head: u64, batch: u64, ring: u64)
    requires
        2 * batch <= ring,
        index < oldest_valid(head, batch, ring),
    ensures
        cushioned(head, batch) + batch <= head,
{
}

/// The length in nanoseconds of the batch of `batch` frames that starts at
/// `index`: the distance between the timestamps of its two ends.
pub open spec fn batch_duration(index: u64, batch: u64, rate: Rational) -> int {
    timestamp_of_index(index + batch, rate) - timestamp_of_index(index as int, rate)
}

/// Computes the length in nanoseconds of the batch that starts at `index`.
pub fn compute_batch_duration(index: u64, batch: u64, sample_rate: &Rational) -> (r: Result<
    u64,
    SessionError,
>)
    ensures
        match r {
            Ok(duration) => {
                &&& sample_rate.valid()
                &&& index + batch <= u64::MAX
                &&& timestamp_of_index(index + batch, *sample_rate) <= u64::MAX
                &&& duration == batch_duration(index, batch, *sample_rate)
            },
            Err(e) => if !sample_rate.valid() {
                e == SessionError::InvalidRate
            } else {
                &&& e == SessionError::OutOfRange
                &&& (index + batch > u64::MAX || timestamp_of_index(index + batch, *sample_rate)
                    > u64::MAX)
            },
        },
{
    if !sample_rate.is_valid() {
        return Err(SessionError::InvalidRate);
    }
    let next_index: u64 = match index.checked_add(batch) {
        Some(next) => next,
        None => {
            return Err(SessionError::OutOfRange);
        },
    };
    let next_head_timestamp: u64 = match index_to_timestamp(next_index, sample_rate) {
        Ok(ns) => ns,
        Err(e) => {
            return Err(SessionError::from_translation(e));
        },
    };
    proof {
        lemma_timestamp_of_index_is_monotonic(index as int, next_index as int, *sample_rate);
    }
    let read_head_timestamp: u64 = match index_to_timestamp(index, sample_rate) {
        Ok(ns) => ns,
        Err(e) => {
            return Err(SessionError::from_translation(e));
        },
    };
    Ok(next_head_timestamp - read_head_timestamp)
}

/// Computes the timestamp of the next batch and corrects the anchor for
/// forward drift: batches are `period_of(batch, rate)` nanoseconds apart.
pub fn compute_pts(
    batch: u64,
    sample_rate: &Rational,
    audio_state: &AudioState,
    ts_gst: u64,
    initial_info: &mut InitialTime,
) -> (r: Result<u64, SessionError>)
    ensures
        match r {
            Ok(pts) => {
                let period: int = period_of(batch as int, *sample_rate);
                &&& sample_rate.valid()
                &&& period <= u64::MAX
                &&& old(initial_info).planned(audio_state.batch_counter as int, period) <= u64::MAX
                &&& pts == old(initial_info).stamped(
                    audio_state.batch_counter as int,
                    period,
                    ts_gst as int,
                )
                &&& *final(initial_info) == old(initial_info).corrected(
                    audio_state.batch_counter as int,
                    period,
                    ts_gst as int,
                )
            },
            Err(e) => {
                let period: int = period_of(batch as int, *sample_rate);
                &&& *final(initial_info) == *old(initial_info)
                &&& if !sample_rate.valid() {
                    e == SessionError::InvalidRate
                } else {
                    &&& e == SessionError::OutOfRange
                    &&& (period > u64::MAX || old(initial_info).planned(
                        audio_state.batch_counter as int,
                        period,
                    ) > u64::MAX)
                }
            },
        },
{
    let period: u64 = match index_to_timestamp(batch, sample_rate) {
        Ok(period) => period,
        Err(e) => {
            return Err(SessionError::from_translation(e));
        },
    };
    initial_info.stamp(audio_state.batch_counter, period, ts_gst)
}

/// The byte at place `k` of the sample of channel `c` in frame `f` of a window.
pub open spec fn sample_byte(samples: RingWindow, f: int, c: int, k: int) -> u8 {
    samples.channels@[c].bytes()[f * SAMPLE_SIZE + k]
}

proof fn lemma_frame_place(f: int, c: int, channels: int, frames: int)
    by (nonlinear_arith)
    requires
        0 <= f < frames,
        0 <= c < channels,
    ensures
        0 <= f * channels + c < frames * channels,
        (f + 1) * channels == f * channels + channels,
{
}

/// Puts the samples of a window, which holds each channel on its own, into
/// the order of the pipeline: frame by frame, and within a frame channel by
/// channel.
#[verifier::rlimit(40)]
pub fn interleave_audio(samples: &RingWindow) -> (interleaved: Vec<u8>)
    requires
        samples.well_formed(SAMPLE_SIZE as int),
    ensures
        interleaved@.len() == samples.frames(SAMPLE_SIZE as int) * samples.channels@.len()
            * SAMPLE_SIZE,
        forall|f: int, c: int, k: int|
            0 <= f < samples.frames(SAMPLE_SIZE as int) && 0 <= c < samples.channels@.len() && 0
                <= k < SAMPLE_SIZE ==> interleaved@[(f * samples.channels@.len() + c) * SAMPLE_SIZE
                + k] == #[trigger] sample_byte(*samples, f, c, k),
{
    let num_channels: usize = samples.channels.len();
    let mut interleaved: Vec<u8> = Vec::new();
    if num_channels == 0 {
        assert(samples.frames(SAMPLE_SIZE as int) * 0 * SAMPLE_SIZE == 0) by (nonlinear_arith);
        return interleaved;
    }
    assert(samples.channels@[0].bytes().len() == samples.channel_bytes());
    let total_samples_per_channel: usize = samples.channels[0].len() / SAMPLE_SIZE;
    let ghost frames: int = samples.frames(SAMPLE_SIZE as int);
    let ghost count: int = num_channels as int;
    let mut frame: usize = 0;
    while frame < total_samples_per_channel
        invariant
            samples.well_formed(SAMPLE_SIZE as int),
            num_channels == samples.channels@.len(),
            num_channels > 0,
            count == num_channels,
            frames == samples.frames(SAMPLE_SIZE as int),
            total_samples_per_channel == frames,
            frame <= total_samples_per_channel,
            interleaved@.len() == frame * count * SAMPLE_SIZE,
            forall|f: int, c: int, k: int|
                0 <= f < frame && 0 <= c < count && 0 <= k < SAMPLE_SIZE ==> interleaved@[(f * count
                    + c) * SAMPLE_SIZE + k] == #[trigger] sample_byte(*samples, f, c, k),
        decreases total_samples_per_channel - frame,
    {
        let mut chan: usize = 0;
        while chan < num_channels
            invariant
                samples.well_formed(SAMPLE_SIZE as int),
                num_channels == samples.channels@.len(),
                count == num_channels,
                frames == samples.frames(SAMPLE_SIZE as int),
                total_samples_per_channel == frames,
                frame < total_samples_per_channel,
                chan <= num_channels,
                interleaved@.len() == (frame * count + chan) * SAMPLE_SIZE,
                forall|f: int, c: int, k: int|
                    0 <= f < frame && 0 <= c < count && 0 <= k < SAMPLE_SIZE ==> interleaved@[(f
                        * count + c) * SAMPLE_SIZE + k] == #[trigger] sample_byte(*samples, f, c, k),
                forall|c: int, k: int|
                    0 <= c < chan && 0 <= k < SAMPLE_SIZE ==> interleaved@[(frame * count + c)
                        * SAMPLE_SIZE + k] == #[trigger] sample_byte(*samples, frame as int, c, k),
            decreases num_channels - chan,
        {
            let channel: &ChannelPlanes = &samples.channels[chan];
            assert(channel.bytes().len() == samples.channel_bytes());
            let ghost before: Seq<u8> = interleaved@;
            let offset: usize = frame * SAMPLE_SIZE;
            let b0: u8 = channel.byte(offset);
            let b1: u8 = channel.byte(offset + 1);
            let b2: u8 = channel.byte(offset + 2);
            let b3: u8 = channel.byte(offset + 3);
            interleaved.push(b0);
            interleaved.push(b1);
            interleaved.push(b2);
            interleaved.push(b3);
            proof {
                let base: int = (frame * count + chan) * SAMPLE_SIZE;
                assert(interleaved@.len() == base + 4);
                assert(forall|i: int| 0 <= i < base ==> interleaved@[i] == before[i]);
                assert forall|f: int, c: int, k: int|
                    0 <= f < frame && 0 <= c < count && 0 <= k < SAMPLE_SIZE implies interleaved@[(f
                    * count + c) * SAMPLE_SIZE + k] == #[trigger] sample_byte(*samples, f, c, k) by {
                    lemma_frame_place(f, c, count, frame as int);
                    assert(f * count + c < frame * count + chan) by (nonlinear_arith)
                        requires
                            0 <= f < frame,
                            0 <= c < count,
                            0 <= chan,
                    ;
                    assert(before[(f * count + c) * SAMPLE_SIZE + k] == sample_byte(
                        *samples,
                        f,
                        c,
                        k,
                    ));
                }
                assert forall|c: int, k: int|
                    0 <= c < chan + 1 && 0 <= k < SAMPLE_SIZE implies interleaved@[(frame * count
                    + c) * SAMPLE_SIZE + k] == #[trigger] sample_byte(
                    *samples,
                    frame as int,
                    c,
                    k,
                ) by {
                    if c < chan {
                        assert(before[(frame * count + c) * SAMPLE_SIZE + k] == sample_byte(
                            *samples,
                            frame as int,
                            c,
                            k,
                        ));
                    }
                }
            }
            chan += 1;
        }
        proof {
            lemma_frame_place(frame as int, 0, count, frames);
            assert forall|f: int, c: int, k: int|
                0 <= f < frame + 1 && 0 <= c < count && 0 <= k < SAMPLE_SIZE implies interleaved@[(f
                * count + c) * SAMPLE_SIZE + k] == #[trigger] sample_byte(*samples, f, c, k) by {
                if f == frame {
                    assert(interleaved@[(frame * count + c) * SAMPLE_SIZE + k] == sample_byte(
                        *samples,
                        frame as int,
                        c,
                        k,
                    ));
                }
            }
        }
        frame += 1;
    }
    interleaved
}

/// Makes the buffer of one batch.
pub fn build_buffer(pts: u64, next_discont: bool, interleaved: Vec<u8>) -> (buffer: Buffer)
    ensures
        buffer.pts == pts,
        buffer.discont == next_discont,
        buffer.data@ == interleaved@,
{
    Buffer { pts, discont: next_discont, data: interleaved }
}

/// What `plan_audio_read` asks the program to read.
#[derive(Clone, Copy, Debug, PartialEq, Eq, Structural)]
pub struct ReadRequest {
    /// The index of the first frame.
    pub index: u64,
    /// The number of frames.
    pub count: u64,
    /// Whether the reader had fallen behind and jumped forward.
    pub caught_up: bool,
}

/// The state after the first step of a cycle: a session without an anchor
/// gets one, and starts to read one batch behind the head.
pub open spec fn audio_begun(state: State, batch: u64, head: u64, now: u64, engine_time: u64) -> State {
    match state.audio {
        Some(audio) if !audio.is_initialized => State {
            initial_info: InitialTime { mxl_index: engine_time, gst_time: now },
            video: state.video,
            audio: Some(
                AudioState {
                    batch_counter: 0,
                    is_initialized: true,
                    index: minus_or_zero(head as int, batch as int) as u64,
                    next_discont: audio.next_discont,
                },
            ),
        },
        _ => state,
    }
}

/// Whether the batch that the session is about to read has left the part of
/// the ring that is still retained.
pub open spec fn reader_is_late(state: State, head: u64, batch: u64, ring: u64) -> bool {
    state.audio is Some && state.audio.unwrap().index < oldest_valid(head, batch, ring)
}

/// The state after the lag check: a reader that is late jumps to two batches
/// behind the head, takes a new anchor, counts its batches from zero and
/// owes the pipeline a discontinuity.
pub open spec fn audio_planned(
    state: State,
    head: u64,
    batch: u64,
    ring: u64,
    now: u64,
    engine_time: u64,
) -> State {
    if reader_is_late(state, head, batch, ring) {
        State {
            initial_info: InitialTime { mxl_index: engine_time, gst_time: now },
            video: state.video,
            audio: Some(
                AudioState {
                    batch_counter: 0,
                    next_discont: true,
                    index: cushioned(head, batch) as u64,
                    ..state.audio.unwrap()
                },
            ),
        }
    } else {
        state
    }
}

/// What the last step of a cycle returns: a failure, nothing, or the
/// timestamp of the buffer and whether it is marked as a discontinuity.
pub open spec fn audio_result(
    state: State,
    batch: u64,
    rate: Rational,
    now: u64,
    samples: Option<RingWindow>,
) -> Result<Option<(u64, bool)>, SessionError> {
    if state.audio is None {
        Err(SessionError::StateError)
    } else if samples is None {
        Ok(None)
    } else if !samples.unwrap().well_formed(SAMPLE_SIZE as int) {
        Err(SessionError::InvalidContent)
    } else if !rate.valid() {
        Err(SessionError::InvalidRate)
    } else {
        let audio: AudioState = state.audio.unwrap();
        let period: int = period_of(batch as int, rate);
        if audio.index + batch > u64::MAX || timestamp_of_index(audio.index + batch, rate)
            > u64::MAX || period > u64::MAX || state.initial_info.planned(
            audio.batch_counter as int,
            period,
        ) > u64::MAX || audio.batch_counter == u64::MAX {
            Err(SessionError::OutOfRange)
        } else {
            Ok(
                Some(
                    (
                        state.initial_info.stamped(audio.batch_counter as int, period, now as int) as u64,
                        audio.next_discont,
                    ),
                ),
            )
        }
    }
}

/// The sum of two numbers, or the largest 64-bit number where the sum is larger.
pub open spec fn plus_or_most(a: int, b: int) -> int {
    if a + b > u64::MAX {
        u64::MAX as int
    } else {
        a + b
    }
}

/// The state that the last step of a cycle leaves behind. Only a cycle that
/// produced a buffer changes it: the place to read from moves on by a batch,
/// the batch is counted, the anchor's index moves on by the length of the
/// batch, its time is corrected for drift, and the discontinuity is paid.
pub open spec fn audio_state_after(
    state: State,
    batch: u64,
    rate: Rational,
    now: u64,
    samples: Option<RingWindow>,
) -> State {
    match audio_result(state, batch, rate, now, samples) {
        Ok(Some(_)) => {
            let audio: AudioState = state.audio.unwrap();
            let period: int = period_of(batch as int, rate);
            State {
                initial_info: InitialTime {
                    mxl_index: plus_or_most(
                        state.initial_info.mxl_index as int,
                        batch_duration(audio.index, batch, rate),
                    ) as u64,
                    gst_time: state.initial_info.corrected(
                        audio.batch_counter as int,
                        period,
                        now as int,
                    ).gst_time,
                },
                video: state.video,
                audio: Some(
                    AudioState {
                        batch_counter: (audio.batch_counter + 1) as u64,
                        index: (audio.index + batch) as u64,
                        next_discont: false,
                        ..audio
                    },
                ),
            }
        },
        _ => state,
    }
}

/// The first step of a cycle. `buffer_length` is the ring's capacity in
/// frames, `hint` the batch size that its writer suggests, `head` its head
/// index, `ts_gst` the pipeline's running time if it has one, and
/// `engine_time` the engine's own time. Returns the batch size.
pub fn begin_audio(
    state: &mut State,
    buffer_length: u32,
    hint: u32,
    head: u64,
    ts_gst: Option<u64>,
    engine_time: u64,
) -> (r: Result<u64, SessionError>)
    ensures
        match r {
            Ok(batch) => {
                &&& old(state).audio is Some
                &&& ts_gst is Some
                &&& batch == batch_of(buffer_length, hint)
                &&& *final(state) == audio_begun(
                    *old(state),
                    batch,
                    head,
                    ts_gst.unwrap(),
                    engine_time,
                )
            },
            Err(e) => {
                &&& *final(state) == *old(state)
                &&& if old(state).audio is None {
                    e == SessionError::StateError
                } else {
                    e == SessionError::EngineUnavailable && ts_gst is None
                }
            },
        },
{
    let mut audio: AudioState = match state.audio {
        Some(audio) => audio,
        None => {
            return Err(SessionError::StateError);
        },
    };
    let batch: u64 = batch_size(buffer_length, hint) as u64;
    let now: u64 = match ts_gst {
        Some(now) => now,
        None => {
            return Err(SessionError::EngineUnavailable);
        },
    };
    audio_state_init(&mut state.initial_info, engine_time, now, batch, head, &mut audio);
    state.audio = Some(audio);
    Ok(batch)
}

/// The third step of a cycle: the lag check, with the jump and the new anchor
/// where the reader is late. `head` is the head index as last read.
pub fn plan_audio_read(
    state: &mut State,
    head: u64,
    batch: u64,
    ring: u64,
    ts_gst: u64,
    engine_time: u64,
) -> (r: Result<ReadRequest, SessionError>)
    ensures
        *final(state) == audio_planned(*old(state), head, batch, ring, ts_gst, engine_time),
        match r {
            Ok(request) => {
                &&& old(state).audio is Some
                &&& request.caught_up == reader_is_late(*old(state), head, batch, ring)
                &&& request.index == final(state).audio.unwrap().index
                &&& request.count == batch
                &&& request.caught_up && 2 * batch <= ring ==> request.index + batch <= head
            },
            Err(e) => e == SessionError::StateError && old(state).audio is None,
        },
{
    let mut audio: AudioState = match state.audio {
        Some(audio) => audio,
        None => {
            return Err(SessionError::StateError);
        },
    };
    let late: bool = is_reader_late(head, batch, ring, &mut audio);
    if late {
        resync_state(ts_gst, &mut state.initial_info, engine_time, &mut audio);
    }
    state.audio = Some(audio);
    Ok(ReadRequest { index: audio.index, count: batch, caught_up: late })
}

/// The last step of a cycle: `samples` is what the read that
/// `plan_audio_read` asked for gave, `None` where it ran out of time or the
/// engine failed.
#[verifier::rlimit(40)]
pub fn create_audio(
    state: &mut State,
    batch: u64,
    sample_rate: &Rational,
    ts_gst: u64,
    samples: Option<RingWindow>,
) -> (r: Result<CreateState, SessionError>)
    ensures
        *final(state) == audio_state_after(*old(state), batch, *sample_rate, ts_gst, samples),
        match r {
            Ok(created) => {
                &&& audio_result(*old(state), batch, *sample_rate, ts_gst, samples) == Ok::<
                    Option<(u64, bool)>,
                    SessionError,
                >(created.marks())
                &&& created matches CreateState::DataCreated(buffer) ==> {
                    let window: RingWindow = samples.unwrap();
                    &&& buffer.data@.len() == window.frames(SAMPLE_SIZE as int)
                        * window.channels@.len() * SAMPLE_SIZE
                    &&& forall|f: int, c: int, k: int|
                        0 <= f < window.frames(SAMPLE_SIZE as int) && 0 <= c
                            < window.channels@.len() && 0 <= k < SAMPLE_SIZE ==> buffer.data@[(f
                            * window.channels@.len() + c) * SAMPLE_SIZE + k]
                            == #[trigger] sample_byte(window, f, c, k)
                }
            },
            Err(e) => audio_result(*old(state), batch, *sample_rate, ts_gst, samples) == Err::<
                Option<(u64, bool)>,
                SessionError,
            >(e),
        },
{
    let mut audio: AudioState = match state.audio {
        Some(audio) => audio,
        None => {
            return Err(SessionError::StateError);
        },
    };
    let samples: RingWindow = match samples {
        Some(samples) => samples,
        None => {
            return Ok(CreateState::NoDataCreated);
        },
    };
    if !samples.is_well_formed(SAMPLE_SIZE) {
        return Err(SessionError::InvalidContent);
    }
    let read_batch_duration: u64 = compute_batch_duration(audio.index, batch, sample_rate)?;
    if audio.batch_counter == u64::MAX {
        return Err(SessionError::OutOfRange);
    }
    let mut initial_info: InitialTime = state.initial_info;
    let pts: u64 = compute_pts(batch, sample_rate, &audio, ts_gst, &mut initial_info)?;
    initial_info.mxl_index = initial_info.mxl_index.saturating_add(read_batch_duration);
    let interleaved: Vec<u8> = interleave_audio(&samples);
    let buffer: Buffer = build_buffer(pts, audio.next_discont, interleaved);
    audio.next_discont = false;
    audio.batch_counter = audio.batch_counter + 1;
    audio.index = audio.index + batch;
    state.initial_info = initial_info;
    state.audio = Some(audio);
    Ok(CreateState::DataCreated(buffer))
}

/// The anchor is set in the first cycle and in no later one: the first step
/// of a cycle leaves a session that has its anchor as it is, and gives one to
/// a session that has none.
pub proof fn lemma_anchor_is_set_once(state: State, batch: u64, head: u64, now: u64, engine_time: u64)
    requires
        state.audio is Some,
    ensures
        audio_begun(state, batch, head, now, engine_time).audio.unwrap().is_initialized,
        state.audio.unwrap().is_initialized ==> audio_begun(state, batch, head, now, engine_time)
            == state,
        !state.audio.unwrap().is_initialized ==> audio_begun(
            state,
            batch,
            head,
            now,
            engine_time,
        ).initial_info == (InitialTime { mxl_index: engine_time, gst_time: now }),
{
}

/// A cycle without a jump, in which the planned timestamp has not fallen
/// behind the pipeline's running time, leaves the anchor's time as it was.
pub proof fn lemma_anchor_time_is_kept(
    state: State,
    batch: u64,
    head: u64,
    ring: u64,
    now: u64,
    engine_time: u64,
    rate: Rational,
    samples: Option<RingWindow>,
)
    requires
        state.audio is Some,
        state.audio.unwrap().is_initialized,
        !reader_is_late(state, head, batch, ring),
        state.initial_info.planned(
            state.audio.unwrap().batch_counter as int,
            period_of(batch as int, rate),
        ) >= now,
    ensures
        ({
            let begun: State = audio_begun(state, batch, head, now, engine_time);
            let planned: State = audio_planned(begun, head, batch, ring, now, engine_time);
            audio_state_after(planned, batch, rate, now, samples).initial_info.gst_time
                == state.initial_info.gst_time
        }),
{
}

/// A session that owes the pipeline no discontinuity at the start of a cycle
/// marks the buffer of that cycle as one exactly if it jumped in that cycle,
/// and owes none afterwards.
pub proof fn lemma_discontinuity_marks_catch_up(
    state: State,
    batch: u64,
    head: u64,
    ring: u64,
    now: u64,
    engine_time: u64,
    rate: Rational,
    samples: Option<RingWindow>,
)
    requires
        state.audio is Some,
        !state.audio.unwrap().next_discont,
    ensures
        ({
            let begun: State = audio_begun(state, batch, head, now, engine_time);
            let planned: State = audio_planned(begun, head, batch, ring, now, engine_time);
            audio_result(planned, batch, rate, now, samples) matches Ok(Some(marks)) ==> {
                &&& marks.1 == reader_is_late(begun, head, batch, ring)
                &&& !audio_state_after(planned, batch, rate, now, samples).audio.unwrap().next_discont
            }
        }),
{
}

} // verus!
