use gst_mxl_rs::error::SessionError;
use gst_mxl_rs::mxlsrc::create_audio::{
    audio_state_init, batch_size, begin_audio, build_buffer, catch_up, compute_batch_duration,
    compute_pts, create_audio, define_cushion, interleave_audio, is_reader_late, plan_audio_read,
    resync_state, wait_for_sample, ReadRequest, DEFAULT_BATCH_SIZE, PRODUCER_TIMEOUT,
};
use gst_mxl_rs::mxlsrc::create_video::{
    create_video, next_frame_index, GrainData, MXL_GRAIN_FLAG_INVALID,
};
use gst_mxl_rs::mxlsrc::imp::{Buffer, CreateState};
use gst_mxl_rs::mxlsrc::state::{AudioState, Context, InitialTime, Settings, State, VideoState};
use gst_mxl_rs::ring::{ChannelPlanes, RingWindow};
use gst_mxl_rs::translate::Rational;

const VIDEO: Rational = Rational { numerator: 30000, denominator: 1001 };
const AUDIO: Rational = Rational { numerator: 48000, denominator: 1 };

fn video_session(frame_counter: u64, is_initialized: bool, anchor: InitialTime) -> State {
    State {
        initial_info: anchor,
        video: Some(VideoState { grain_rate: VIDEO, frame_counter, is_initialized }),
        audio: None,
    }
}

fn audio_session(audio: AudioState, anchor: InitialTime) -> State {
    State { initial_info: anchor, video: None, audio: Some(audio) }
}

fn grain(payload: Vec<u8>) -> Option<GrainData> {
    Some(GrainData { flags: 0, payload })
}

#[test]
fn video_timestamps_count_frames_from_the_anchor() {
    let mut state = video_session(0, true, InitialTime { mxl_index: 1000, gst_time: 0 });
    assert_eq!(next_frame_index(&state, 1000), Ok(1000));
    let first = create_video(&mut state, 1000, Some(0), grain(vec![1, 2, 3]));
    assert_eq!(
        first,
        Ok(CreateState::DataCreated(Buffer { pts: 0, discont: false, data: vec![1, 2, 3] }))
    );
    assert_eq!(state.video.unwrap().frame_counter, 1);
    assert_eq!(next_frame_index(&state, 1000), Ok(1001));
    let second = create_video(&mut state, 1000, Some(0), grain(vec![4]));
    assert_eq!(
        second,
        Ok(CreateState::DataCreated(Buffer { pts: 33_366_667, discont: false, data: vec![4] }))
    );
    assert_eq!(state.initial_info, InitialTime { mxl_index: 1000, gst_time: 0 });
    assert_eq!(state.video.unwrap().frame_counter, 2);
}

#[test]
fn first_video_cycle_sets_the_anchor() {
    let mut state = video_session(0, false, InitialTime::default());
    assert_eq!(next_frame_index(&state, 777), Ok(777));
    let made = create_video(&mut state, 777, Some(5_000), grain(vec![9]));
    assert_eq!(
        made,
        Ok(CreateState::DataCreated(Buffer { pts: 5_000, discont: false, data: vec![9] }))
    );
    assert_eq!(state.initial_info, InitialTime { mxl_index: 777, gst_time: 5_000 });
    assert!(state.video.unwrap().is_initialized);
    // A later cycle does not set it again.
    let made = create_video(&mut state, 900, Some(5_000), grain(vec![9]));
    assert_eq!(
        made,
        Ok(CreateState::DataCreated(Buffer { pts: 5_000 + 33_366_667, discont: false, data: vec![9] }))
    );
    assert_eq!(state.initial_info, InitialTime { mxl_index: 777, gst_time: 5_000 });
}

#[test]
fn video_reader_that_lags_skips_to_the_current_index() {
    let state = video_session(3, true, InitialTime { mxl_index: 100, gst_time: 0 });
    assert_eq!(next_frame_index(&state, 103), Ok(103));
    assert_eq!(next_frame_index(&state, 102), Ok(103));
    assert_eq!(next_frame_index(&state, 250), Ok(250));
    let far = video_session(5, true, InitialTime { mxl_index: u64::MAX - 2, gst_time: 0 });
    assert_eq!(next_frame_index(&far, 0), Err(SessionError::OutOfRange));
    let none = State { initial_info: InitialTime::default(), video: None, audio: None };
    assert_eq!(next_frame_index(&none, 0), Err(SessionError::StateError));
}

#[test]
fn video_timestamp_behind_the_clock_moves_the_anchor_forward() {
    let mut state = video_session(2, true, InitialTime { mxl_index: 10, gst_time: 1_000 });
    // Planned: 1_000 + 2 * 33_366_667 = 66_734_334, but the clock is at 70_000_000.
    let made = create_video(&mut state, 12, Some(70_000_000), grain(vec![]));
    assert_eq!(
        made,
        Ok(CreateState::DataCreated(Buffer { pts: 70_000_000, discont: false, data: vec![] }))
    );
    assert_eq!(state.initial_info.gst_time, 1_000 + (70_000_000 - 66_734_334));
    assert_eq!(state.initial_info.mxl_index, 10);
    // The next frame is one period after the clock's time of this one.
    let made = create_video(&mut state, 13, Some(70_000_001), grain(vec![]));
    assert_eq!(
        made,
        Ok(CreateState::DataCreated(Buffer { pts: 70_000_000 + 33_366_667, discont: false, data: vec![] }))
    );
}

#[test]
fn video_cycle_without_a_grain_produces_nothing() {
    let mut state = video_session(4, true, InitialTime { mxl_index: 10, gst_time: 1_000 });
    let before = state;
    assert_eq!(create_video(&mut state, 14, Some(0), None), Ok(CreateState::NoDataCreated));
    assert_eq!(state, before);
}

#[test]
fn invalid_grain_ends_the_session() {
    let mut state = video_session(4, true, InitialTime { mxl_index: 10, gst_time: 1_000 });
    let before = state;
    let bad = Some(GrainData { flags: MXL_GRAIN_FLAG_INVALID | 4, payload: vec![1] });
    assert!(bad.as_ref().unwrap().is_invalid());
    assert_eq!(create_video(&mut state, 14, Some(0), bad), Err(SessionError::InvalidContent));
    assert_eq!(state, before);
    let fine = GrainData { flags: 6, payload: vec![1] };
    assert!(!fine.is_invalid());
}

#[test]
fn video_cycle_fails_without_state_clock_or_rate() {
    let mut none = State { initial_info: InitialTime::default(), video: None, audio: None };
    assert_eq!(create_video(&mut none, 0, Some(0), grain(vec![])), Err(SessionError::StateError));
    let mut state = video_session(0, false, InitialTime::default());
    assert_eq!(
        create_video(&mut state, 0, None, grain(vec![])),
        Err(SessionError::EngineUnavailable)
    );
    assert!(!state.video.unwrap().is_initialized);
    let mut broken = State {
        initial_info: InitialTime::default(),
        video: Some(VideoState {
            grain_rate: Rational { numerator: 25, denominator: 0 },
            frame_counter: 0,
            is_initialized: true,
        }),
        audio: None,
    };
    assert_eq!(create_video(&mut broken, 0, Some(0), grain(vec![])), Err(SessionError::InvalidRate));
    let mut late = video_session(u64::MAX / 2, true, InitialTime { mxl_index: 0, gst_time: 0 });
    assert_eq!(create_video(&mut late, 0, Some(0), grain(vec![])), Err(SessionError::OutOfRange));
}

#[test]
fn batch_size_is_the_least_of_default_half_ring_and_hint() {
    assert_eq!(DEFAULT_BATCH_SIZE, 48);
    assert_eq!(batch_size(4096, 1024), 48);
    assert_eq!(batch_size(64, 1024), 32);
    assert_eq!(batch_size(4096, 16), 16);
    assert_eq!(batch_size(1, 16), 0);
    assert_eq!(batch_size(4096, 0), 0);
}

#[test]
fn reader_that_fell_out_of_the_ring_jumps_and_flags_discontinuity() {
    let audio = AudioState { batch_counter: 7, is_initialized: true, index: 5000, next_discont: false };
    let mut state = audio_session(audio, InitialTime { mxl_index: 1, gst_time: 2 });
    let request = plan_audio_read(&mut state, 10000, 480, 4096, 123_456, 987_654);
    assert_eq!(request, Ok(ReadRequest { index: 9040, count: 480, caught_up: true }));
    let after = state.audio.unwrap();
    assert_eq!(after.index, 9040);
    assert!(after.next_discont);
    assert_eq!(after.batch_counter, 0);
    assert_eq!(state.initial_info, InitialTime { mxl_index: 987_654, gst_time: 123_456 });
    assert!(after.index + 480 <= 10000);
}

#[test]
fn oldest_retained_index_is_the_boundary_of_lateness() {
    let mut at_boundary = AudioState { batch_counter: 0, is_initialized: true, index: 6384, next_discont: false };
    assert!(!is_reader_late(10000, 480, 4096, &mut at_boundary));
    assert_eq!(at_boundary.index, 6384);
    let mut behind = AudioState { index: 6383, ..at_boundary };
    assert!(is_reader_late(10000, 480, 4096, &mut behind));
    assert_eq!(behind.index, 9040);
    assert!(!behind.next_discont);
    // A head that has not yet gone round the ring retains everything.
    let mut early = AudioState { index: 0, ..at_boundary };
    assert!(!is_reader_late(3000, 480, 4096, &mut early));
}

#[test]
fn reader_in_time_keeps_its_place_and_anchor() {
    let audio = AudioState { batch_counter: 7, is_initialized: true, index: 9000, next_discont: false };
    let mut state = audio_session(audio, InitialTime { mxl_index: 1, gst_time: 2 });
    let before = state;
    let request = plan_audio_read(&mut state, 10000, 480, 4096, 123_456, 987_654);
    assert_eq!(request, Ok(ReadRequest { index: 9000, count: 480, caught_up: false }));
    assert_eq!(state, before);
    let mut none = State { initial_info: InitialTime::default(), video: None, audio: None };
    assert_eq!(plan_audio_read(&mut none, 1, 1, 1, 1, 1), Err(SessionError::StateError));
}

#[test]
fn cushion_is_two_batches_behind_the_head() {
    assert_eq!(define_cushion(10000, 480), 9040);
    assert_eq!(define_cushion(900, 480), 0);
    assert_eq!(define_cushion(960, 480), 0);
    assert_eq!(define_cushion(u64::MAX, u64::MAX), 0);
    let mut audio = AudioState { batch_counter: 3, is_initialized: true, index: 1, next_discont: false };
    catch_up(5000, 100, &mut audio);
    assert_eq!(audio, AudioState { batch_counter: 3, is_initialized: true, index: 4800, next_discont: false });
}

#[test]
fn first_audio_cycle_sets_anchor_and_starts_a_batch_behind_the_head() {
    let audio = AudioState { batch_counter: 9, is_initialized: false, index: 0, next_discont: false };
    let mut state = audio_session(audio, InitialTime::default());
    assert_eq!(begin_audio(&mut state, 4096, 1024, 10_000, Some(55), 77), Ok(48));
    assert_eq!(state.initial_info, InitialTime { mxl_index: 77, gst_time: 55 });
    assert_eq!(
        state.audio.unwrap(),
        AudioState { batch_counter: 0, is_initialized: true, index: 9_952, next_discont: false }
    );
    // The second cycle leaves both alone.
    let before = state;
    assert_eq!(begin_audio(&mut state, 4096, 1024, 20_000, Some(99), 111), Ok(48));
    assert_eq!(state, before);
}

#[test]
fn begin_audio_fails_without_state_or_clock() {
    let mut none = State { initial_info: InitialTime::default(), video: None, audio: None };
    assert_eq!(begin_audio(&mut none, 4096, 48, 0, Some(0), 0), Err(SessionError::StateError));
    let audio = AudioState { batch_counter: 0, is_initialized: false, index: 0, next_discont: false };
    let mut state = audio_session(audio, InitialTime::default());
    assert_eq!(begin_audio(&mut state, 4096, 48, 0, None, 0), Err(SessionError::EngineUnavailable));
    assert!(!state.audio.unwrap().is_initialized);
}

#[test]
fn init_and_resync_of_the_parts() {
    let mut anchor = InitialTime::default();
    let mut audio = AudioState { batch_counter: 5, is_initialized: false, index: 3, next_discont: true };
    audio_state_init(&mut anchor, 1_000, 2_000, 48, 20, &mut audio);
    assert_eq!(anchor, InitialTime { mxl_index: 1_000, gst_time: 2_000 });
    assert_eq!(audio, AudioState { batch_counter: 0, is_initialized: true, index: 0, next_discont: true });
    audio.batch_counter = 4;
    audio.next_discont = false;
    resync_state(9_000, &mut anchor, 8_000, &mut audio);
    assert_eq!(anchor, InitialTime { mxl_index: 8_000, gst_time: 9_000 });
    assert_eq!(audio, AudioState { batch_counter: 0, is_initialized: true, index: 0, next_discont: true });
}

#[test]
fn waiting_ends_when_the_batch_is_there_or_time_is_up() {
    let audio = AudioState { batch_counter: 0, is_initialized: true, index: 1000, next_discont: false };
    assert!(wait_for_sample(1047, 48, &audio, 0));
    assert!(!wait_for_sample(1048, 48, &audio, 0));
    assert!(wait_for_sample(1047, 48, &audio, PRODUCER_TIMEOUT));
    assert!(!wait_for_sample(1047, 48, &audio, PRODUCER_TIMEOUT + 1));
    let last = AudioState { index: u64::MAX, ..audio };
    assert!(wait_for_sample(u64::MAX, 1, &last, 0));
}

#[test]
fn batch_duration_is_the_distance_of_its_ends() {
    assert_eq!(compute_batch_duration(0, 48, &AUDIO), Ok(1_000_000));
    assert_eq!(compute_batch_duration(9040, 480, &AUDIO), Ok(10_000_000));
    assert_eq!(compute_batch_duration(1, 1, &VIDEO), Ok(66_733_333 - 33_366_667));
    assert_eq!(
        compute_batch_duration(0, 48, &Rational { numerator: 0, denominator: 1 }),
        Err(SessionError::InvalidRate)
    );
    assert_eq!(compute_batch_duration(u64::MAX, 1, &AUDIO), Err(SessionError::OutOfRange));
    assert_eq!(compute_batch_duration(u64::MAX - 1, 1, &AUDIO), Err(SessionError::OutOfRange));
}

#[test]
fn audio_timestamps_count_batches_from_the_anchor() {
    let audio = AudioState { batch_counter: 3, is_initialized: true, index: 0, next_discont: false };
    let mut anchor = InitialTime { mxl_index: 0, gst_time: 500 };
    assert_eq!(compute_pts(48, &AUDIO, &audio, 0, &mut anchor), Ok(3_000_500));
    assert_eq!(anchor.gst_time, 500);
    assert_eq!(compute_pts(48, &AUDIO, &audio, 4_000_000, &mut anchor), Ok(4_000_000));
    assert_eq!(anchor.gst_time, 1_000_000);
    assert_eq!(compute_pts(48, &AUDIO, &audio, 4_000_000, &mut anchor), Ok(4_000_000));
    assert_eq!(anchor.gst_time, 1_000_000);
    let mut far = InitialTime { mxl_index: 0, gst_time: u64::MAX - 10 };
    assert_eq!(compute_pts(48, &AUDIO, &audio, 0, &mut far), Err(SessionError::OutOfRange));
    assert_eq!(far.gst_time, u64::MAX - 10);
}

fn window(channels: Vec<(Vec<u8>, Vec<u8>)>) -> RingWindow {
    RingWindow {
        channels: channels
            .into_iter()
            .map(|(plane1, plane2)| ChannelPlanes { plane1, plane2 })
            .collect(),
    }
}

#[test]
fn interleaving_goes_frame_by_frame_and_across_the_wrap() {
    let samples = window(vec![
        (vec![1, 2, 3, 4], vec![5, 6, 7, 8, 9, 10, 11, 12]),
        (vec![21, 22, 23, 24, 25, 26, 27, 28], vec![29, 30, 31, 32]),
    ]);
    assert!(samples.is_well_formed(4));
    assert_eq!(
        interleave_audio(&samples),
        vec![1, 2, 3, 4, 21, 22, 23, 24, 5, 6, 7, 8, 25, 26, 27, 28, 9, 10, 11, 12, 29, 30, 31, 32]
    );
    assert_eq!(interleave_audio(&window(vec![])), Vec::<u8>::new());
    assert_eq!(interleave_audio(&window(vec![(vec![], vec![])])), Vec::<u8>::new());
}

#[test]
fn windows_with_uneven_channels_are_not_well_formed() {
    assert!(!window(vec![(vec![0; 4], vec![]), (vec![0; 8], vec![])]).is_well_formed(4));
    assert!(!window(vec![(vec![0; 3], vec![0; 3])]).is_well_formed(4));
    assert!(window(vec![(vec![0; 3], vec![0; 5])]).is_well_formed(4));
    assert!(window(vec![(vec![0; 3], vec![0; 5])]).is_uniform(8));
    assert!(!window(vec![(vec![0; 3], vec![0; 5])]).is_uniform(7));
}

#[test]
fn audio_cycle_produces_a_buffer_and_moves_on() {
    let audio = AudioState { batch_counter: 2, is_initialized: true, index: 960, next_discont: false };
    let mut state = audio_session(audio, InitialTime { mxl_index: 10, gst_time: 1_000 });
    let samples = window(vec![(vec![1, 2, 3, 4], vec![]), (vec![5, 6, 7, 8], vec![])]);
    let made = create_audio(&mut state, 48, &AUDIO, 0, Some(samples));
    assert_eq!(
        made,
        Ok(CreateState::DataCreated(Buffer {
            pts: 2_001_000,
            discont: false,
            data: vec![1, 2, 3, 4, 5, 6, 7, 8],
        }))
    );
    assert_eq!(
        state.audio.unwrap(),
        AudioState { batch_counter: 3, is_initialized: true, index: 1008, next_discont: false }
    );
    assert_eq!(state.initial_info, InitialTime { mxl_index: 1_000_010, gst_time: 1_000 });
}

#[test]
fn discontinuity_is_reported_once_after_a_jump() {
    let audio = AudioState { batch_counter: 7, is_initialized: true, index: 5000, next_discont: false };
    let mut state = audio_session(audio, InitialTime { mxl_index: 1, gst_time: 2 });
    assert_eq!(begin_audio(&mut state, 4096, 480, 10000, Some(50_000), 7), Ok(48));
    let request = plan_audio_read(&mut state, 10000, 48, 4096, 50_000, 7).unwrap();
    assert!(request.caught_up);
    assert_eq!(request.index, 10000 - 96);
    // The read runs out of time: nothing is produced and the flag stays.
    assert_eq!(create_audio(&mut state, 48, &AUDIO, 50_000, None), Ok(CreateState::NoDataCreated));
    assert!(state.audio.unwrap().next_discont);
    assert_eq!(state.audio.unwrap().index, 10000 - 96);
    // The next cycle reads without a jump and reports the discontinuity.
    let request = plan_audio_read(&mut state, 10048, 48, 4096, 60_000, 8).unwrap();
    assert!(!request.caught_up);
    let samples = window(vec![(vec![0; 192], vec![])]);
    let made = create_audio(&mut state, 48, &AUDIO, 60_000, Some(samples)).unwrap();
    match made {
        CreateState::DataCreated(buffer) => {
            assert!(buffer.discont);
            assert_eq!(buffer.pts, 60_000);
            assert_eq!(buffer.data.len(), 192);
        }
        CreateState::NoDataCreated => panic!("a buffer was due"),
    }
    assert!(!state.audio.unwrap().next_discont);
    // And the one after it is continuous again.
    let samples = window(vec![(vec![0; 192], vec![])]);
    let made = create_audio(&mut state, 48, &AUDIO, 60_000, Some(samples)).unwrap();
    match made {
        CreateState::DataCreated(buffer) => {
            assert!(!buffer.discont);
            assert_eq!(buffer.pts, 60_000 + 1_000_000);
        }
        CreateState::NoDataCreated => panic!("a buffer was due"),
    }
}

#[test]
fn audio_cycle_failures_leave_the_state_alone() {
    let audio = AudioState { batch_counter: 2, is_initialized: true, index: 960, next_discont: true };
    let mut state = audio_session(audio, InitialTime { mxl_index: 10, gst_time: 1_000 });
    let before = state;
    let uneven = window(vec![(vec![0; 4], vec![]), (vec![0; 8], vec![])]);
    assert_eq!(
        create_audio(&mut state, 48, &AUDIO, 0, Some(uneven)),
        Err(SessionError::InvalidContent)
    );
    assert_eq!(state, before);
    let fine = window(vec![(vec![0; 4], vec![])]);
    let no_rate = Rational { numerator: 48000, denominator: -1 };
    assert_eq!(
        create_audio(&mut state, 48, &no_rate, 0, Some(fine.clone())),
        Err(SessionError::InvalidRate)
    );
    assert_eq!(state, before);
    state.audio = Some(AudioState { index: u64::MAX - 3, ..audio });
    assert_eq!(
        create_audio(&mut state, 48, &AUDIO, 0, Some(fine.clone())),
        Err(SessionError::OutOfRange)
    );
    let mut none = State { initial_info: InitialTime::default(), video: None, audio: None };
    assert_eq!(create_audio(&mut none, 48, &AUDIO, 0, Some(fine)), Err(SessionError::StateError));
}

#[test]
fn buffers_and_defaults() {
    assert_eq!(build_buffer(7, true, vec![1, 2]), Buffer { pts: 7, discont: true, data: vec![1, 2] });
    let settings = Settings::default();
    assert_eq!(settings.video_flow, None);
    assert_eq!(settings.audio_flow, None);
    assert_eq!(settings.domain, "");
    assert_eq!(Context::default().state, None);
    assert_eq!(InitialTime::default(), InitialTime { mxl_index: 0, gst_time: 0 });
}
