use gst_mxl_rs::error::SessionError;
use gst_mxl_rs::flow::flowdef::{
    default_denominator, Component, FlowDef, FlowDefAudio, FlowDefDetails, FlowDefVideo,
    InterlaceMode, MediaKind, Rate,
};
use gst_mxl_rs::flow_id::parse_flow_id;
use gst_mxl_rs::flowdef::GrainRate;
use gst_mxl_rs::mxlsink;
use gst_mxl_rs::mxlsink::state::{
    audio_flow_def, audio_flow_def_with_id, init_state_with_audio, init_state_with_video,
    video_flow_def, FlowConfigInfo, FlowDefError, VideoCaps,
};
use gst_mxl_rs::mxlsrc::create_audio::{begin_audio, create_audio, plan_audio_read};
use gst_mxl_rs::mxlsrc::imp::{
    ClockWait, MxlSrc, Negotiation, PadCaps, Retry, SessionPhase, SrcCaps,
};
use gst_mxl_rs::ring::{ChannelPlanes, RingWindow};
use gst_mxl_rs::mxlsrc::mxl_helper::{
    flow_not_ready, generate_channel_mask_from_channels, get_flow_def_kind, get_flow_type_id, init,
    set_json_caps, Caps,
};
use gst_mxl_rs::mxlsrc::state::{AudioState, Context, InitialTime, Settings, State, VideoState};
use gst_mxl_rs::text::same_text;
use gst_mxl_rs::translate::Rational;
use std::str::FromStr;

const VIDEO: Rational = Rational { numerator: 30000, denominator: 1001 };

#[test]
fn properties_are_set_and_read_by_name() {
    let mut element = MxlSrc::default();
    assert_eq!(element.property("video-flow-id"), None);
    assert_eq!(element.property("domain"), Some(String::new()));
    assert!(element.set_property("video-flow-id", String::from("test_flow")));
    assert!(element.set_property("domain", String::from("mydomain")));
    assert_eq!(element.property("video-flow-id"), Some(String::from("test_flow")));
    assert_eq!(element.property("domain"), Some(String::from("mydomain")));
    assert_eq!(element.property("audio-flow-id"), None);
    assert!(element.set_property("audio-flow-id", String::from("other")));
    assert_eq!(element.property("audio-flow-id"), Some(String::from("other")));
    assert!(!element.set_property("video-flow", String::from("x")));
    assert_eq!(element.property("video-flow"), Some(String::new()));
    assert_eq!(element.settings.video_flow, Some(String::from("test_flow")));
}

#[test]
fn sink_properties_are_set_and_read_by_name() {
    let mut element = mxlsink::imp::MxlSink::default();
    assert_eq!(element.property("flow-id"), "");
    assert!(element.set_property("flow-id", String::from("7fbec3b1-1b0f-417d-9059-8b94a47197ed")));
    assert!(element.set_property("domain", String::from("/dev/shm")));
    assert!(!element.set_property("nothing", String::from("x")));
    assert_eq!(element.property("flow-id"), "7fbec3b1-1b0f-417d-9059-8b94a47197ed");
    assert_eq!(element.property("domain"), "/dev/shm");
    assert_eq!(element.property("nothing"), "");
}

#[test]
fn a_stopped_session_refuses_to_work() {
    let mut element = MxlSrc::default();
    assert!(element.clock_wait.flushing);
    assert_eq!(element.phase(), SessionPhase::Stopped);
    assert_eq!(element.try_create(), Err(SessionError::StateError));
    assert_eq!(element.negotiate(), Err(SessionError::StateError));
    element.set_property("video-flow-id", String::from("flow"));
    let state = init(&element.settings, Some(VIDEO)).unwrap();
    element.start(state);
    assert!(!element.clock_wait.flushing);
    assert_eq!(element.phase(), SessionPhase::Uninitialized);
    assert_eq!(element.try_create(), Ok(MediaKind::Video));
    element.stop();
    assert!(element.clock_wait.flushing);
    assert_eq!(element.context.state, None);
    assert_eq!(element.phase(), SessionPhase::Stopped);
    assert_eq!(element.try_create(), Err(SessionError::StateError));
    element.unlock_stop();
    assert!(!element.clock_wait.flushing);
    element.unlock();
    assert!(element.clock_wait.flushing);
}

#[test]
fn phases_of_a_session() {
    let mut element = MxlSrc::default();
    let audio = AudioState { batch_counter: 0, is_initialized: false, index: 0, next_discont: false };
    let state = |audio: AudioState| State { initial_info: InitialTime::default(), video: None, audio: Some(audio) };
    element.start(state(audio));
    assert_eq!(element.phase(), SessionPhase::Uninitialized);
    assert_eq!(element.try_create(), Ok(MediaKind::Audio));
    element.start(state(AudioState { is_initialized: true, ..audio }));
    assert_eq!(element.phase(), SessionPhase::Anchored);
    element.start(state(AudioState { is_initialized: true, batch_counter: 3, ..audio }));
    assert_eq!(element.phase(), SessionPhase::Steady);
    element.start(state(AudioState { is_initialized: true, next_discont: true, ..audio }));
    assert_eq!(element.phase(), SessionPhase::Resyncing);
    element.start(State { initial_info: InitialTime::default(), video: None, audio: None });
    assert_eq!(element.phase(), SessionPhase::Stopped);
    assert_eq!(element.try_create(), Err(SessionError::StateError));
    let video = VideoState { grain_rate: VIDEO, frame_counter: 0, is_initialized: true };
    element.start(State { initial_info: InitialTime::default(), video: Some(video), audio: None });
    assert_eq!(element.phase(), SessionPhase::Anchored);
    element.start(State {
        initial_info: InitialTime::default(),
        video: Some(VideoState { frame_counter: 1, ..video }),
        audio: None,
    });
    assert_eq!(element.phase(), SessionPhase::Steady);
    assert_eq!(MxlSrc::create(true), Retry::EndOfStream);
    assert_eq!(MxlSrc::create(false), Retry::Reopen);
}

#[test]
fn negotiation_needs_a_domain_and_one_flow() {
    let mut element = MxlSrc::default();
    element.start(State { initial_info: InitialTime::default(), video: None, audio: None });
    assert_eq!(element.negotiate(), Ok(Negotiation::Fallback));
    element.set_property("domain", String::from("/dev/shm"));
    assert_eq!(element.negotiate(), Ok(Negotiation::Fallback));
    element.set_property("audio-flow-id", String::from("a"));
    assert_eq!(element.negotiate(), Ok(Negotiation::Describe(String::from("a"))));
    element.set_property("video-flow-id", String::from("v"));
    assert_eq!(element.negotiate(), Ok(Negotiation::Fallback));
    element.settings.audio_flow = None;
    assert_eq!(element.negotiate(), Ok(Negotiation::Describe(String::from("v"))));
    element.set_property("domain", String::new());
    assert_eq!(element.negotiate(), Ok(Negotiation::Fallback));
}

#[test]
fn formats_of_the_pipeline() {
    let video = SrcCaps {
        format: Some(String::from("v210")),
        width: Some(1920),
        height: Some(1080),
        framerate: Some(Rate { numerator: 30000, denominator: 1001 }),
        interlace_mode: Some(String::from("progressive")),
        colorimetry: Some(String::from("bt709")),
        rate: None,
        channels: None,
    };
    assert_eq!(MxlSrc::set_caps(&video), Ok(MediaKind::Video));
    let no_height = SrcCaps { height: None, ..video.clone() };
    assert_eq!(MxlSrc::set_caps(&no_height), Err(SessionError::StateError));
    let no_colorimetry = SrcCaps { colorimetry: None, ..video.clone() };
    assert_eq!(MxlSrc::set_caps(&no_colorimetry), Err(SessionError::StateError));
    let audio = SrcCaps {
        format: Some(String::from("F32LE")),
        width: None,
        height: None,
        framerate: None,
        interlace_mode: None,
        colorimetry: None,
        rate: Some(48000),
        channels: Some(2),
    };
    assert_eq!(MxlSrc::set_caps(&audio), Ok(MediaKind::Audio));
    let no_channels = SrcCaps { channels: None, ..audio.clone() };
    assert_eq!(MxlSrc::set_caps(&no_channels), Err(SessionError::StateError));
    let gray = SrcCaps { format: Some(String::from("GRAY8")), ..video.clone() };
    assert_eq!(MxlSrc::set_caps(&gray), Err(SessionError::StateError));
    let no_format = SrcCaps { format: None, ..video };
    assert_eq!(MxlSrc::set_caps(&no_format), Err(SessionError::StateError));
    assert_eq!(
        MxlSrc::pad_templates(),
        vec![
            PadCaps { name: String::from("video/x-raw"), format: String::from("v210") },
            PadCaps { name: String::from("audio/x-raw"), format: String::from("F32LE") },
        ]
    );
    let offered = mxlsink::imp::MxlSink::pad_templates();
    assert_eq!(offered.len(), 64);
    assert_eq!(offered[0], mxlsink::imp::PadCaps::Video { format: String::from("v210") });
    for ch in 1..64usize {
        assert_eq!(
            offered[ch],
            mxlsink::imp::PadCaps::Audio {
                format: String::from("F32LE"),
                layout: String::from("interleaved"),
                channels: ch as i32,
                channel_mask: (1u64 << ch) - 1,
            }
        );
    }
    assert_eq!(mxlsink::imp::MxlSink::set_caps("audio/x-raw"), MediaKind::Audio);
    assert_eq!(mxlsink::imp::MxlSink::set_caps("video/x-raw"), MediaKind::Video);
    assert_eq!(mxlsink::imp::MxlSink::set_caps(""), MediaKind::Video);
}

#[test]
fn the_flow_to_read_is_the_video_flow_if_there_is_one() {
    let mut settings = Settings::default();
    assert_eq!(get_flow_type_id(&settings), Err(SessionError::StateError));
    settings.audio_flow = Some(String::from("a"));
    assert_eq!(get_flow_type_id(&settings), Ok(&String::from("a")));
    settings.video_flow = Some(String::from("v"));
    assert_eq!(get_flow_type_id(&settings), Ok(&String::from("v")));
}

#[test]
fn sessions_start_without_an_anchor() {
    let mut settings = Settings::default();
    assert_eq!(init(&settings, Some(VIDEO)), Err(SessionError::StateError));
    settings.audio_flow = Some(String::from("a"));
    assert_eq!(
        init(&settings, None),
        Ok(State {
            initial_info: InitialTime { mxl_index: 0, gst_time: 0 },
            video: None,
            audio: Some(AudioState { batch_counter: 0, is_initialized: false, index: 0, next_discont: false }),
        })
    );
    settings.video_flow = Some(String::from("v"));
    assert_eq!(init(&settings, None), Err(SessionError::EngineUnavailable));
    assert_eq!(
        init(&settings, Some(VIDEO)),
        Ok(State {
            initial_info: InitialTime { mxl_index: 0, gst_time: 0 },
            video: Some(VideoState { grain_rate: VIDEO, frame_counter: 0, is_initialized: false }),
            audio: None,
        })
    );
    let mut warned = false;
    assert!(flow_not_ready(&mut warned));
    assert!(warned);
    assert!(!flow_not_ready(&mut warned));
    assert!(warned);
}

#[test]
fn media_types_name_the_kind_of_flow() {
    assert_eq!(get_flow_def_kind(Some("video/v210")), Some(MediaKind::Video));
    assert_eq!(get_flow_def_kind(Some("audio/float32")), Some(MediaKind::Audio));
    assert_eq!(get_flow_def_kind(Some("video/v210a")), None);
    assert_eq!(get_flow_def_kind(Some("unknown")), None);
    assert_eq!(get_flow_def_kind(None), None);
}

#[test]
fn channel_masks_set_one_bit_for_each_channel() {
    assert_eq!(generate_channel_mask_from_channels(0), 0);
    assert_eq!(generate_channel_mask_from_channels(1), 1);
    assert_eq!(generate_channel_mask_from_channels(2), 3);
    assert_eq!(generate_channel_mask_from_channels(8), 255);
    assert_eq!(generate_channel_mask_from_channels(63), u64::MAX >> 1);
    assert_eq!(generate_channel_mask_from_channels(64), u64::MAX);
    assert_eq!(generate_channel_mask_from_channels(u32::MAX), u64::MAX);
}

#[test]
fn caps_of_a_flow_definition() {
    let video = FlowDefDetails::Video(FlowDefVideo {
        grain_rate: Rate { numerator: 30000, denominator: 1001 },
        frame_width: 1920,
        frame_height: 1080,
        interlace_mode: InterlaceMode::InterlacedTff,
        colorspace: String::from("BT709"),
        components: vec![],
    });
    assert_eq!(
        set_json_caps(&video),
        Caps::Video {
            format: String::from("v210"),
            width: 1920,
            height: 1080,
            framerate: Rate { numerator: 30000, denominator: 1001 },
            interlace_mode: String::from("\"interlaced_tff\""),
            colorimetry: String::from("bt709"),
        }
    );
    let audio = |channels: i32| {
        FlowDefDetails::Audio(FlowDefAudio {
            sample_rate: Rate { numerator: 48000, denominator: default_denominator() },
            channel_count: channels,
            bit_depth: 32,
        })
    };
    assert_eq!(
        set_json_caps(&audio(2)),
        Caps::Audio {
            format: String::from("F32LE"),
            rate: 48000,
            channels: 2,
            layout: String::from("interleaved"),
            channel_mask: 3,
        }
    );
    match set_json_caps(&audio(-1)) {
        Caps::Audio { channel_mask, .. } => assert_eq!(channel_mask, u64::MAX),
        Caps::Video { .. } => panic!("audio caps were due"),
    }
}

#[test]
fn interlace_modes_have_names() {
    assert_eq!(InterlaceMode::from_str("progressive"), Ok(InterlaceMode::Progressive));
    assert_eq!(InterlaceMode::from_str("interlaced_tff"), Ok(InterlaceMode::InterlacedTff));
    assert_eq!(InterlaceMode::from_str("interlaced_bff"), Ok(InterlaceMode::InterlacedBff));
    assert_eq!(InterlaceMode::from_str("Progressive"), Err(()));
    assert_eq!(InterlaceMode::from_name(""), Err(()));
    assert_eq!(InterlaceMode::InterlacedBff.as_str(), "interlaced_bff");
    assert_eq!(default_denominator(), 1);
    assert!(same_text("a", "a"));
    assert!(!same_text("a", "b"));
}

#[test]
fn flow_identifiers_are_uuids() {
    assert_eq!(
        parse_flow_id("5fbec3b1-1b0f-417d-9059-8b94a47197ed"),
        Some(0x5fbec3b1_1b0f_417d_9059_8b94a47197ed)
    );
    assert_eq!(
        parse_flow_id("5FBEC3B11B0F417D90598B94A47197ED"),
        Some(0x5fbec3b1_1b0f_417d_9059_8b94a47197ed)
    );
    assert_eq!(
        parse_flow_id("urn:uuid:5fbec3b1-1b0f-417d-9059-8b94a47197ed"),
        Some(0x5fbec3b1_1b0f_417d_9059_8b94a47197ed)
    );
    assert_eq!(parse_flow_id("test_flow"), None);
    assert_eq!(parse_flow_id(""), None);
    assert_eq!(parse_flow_id("5fbec3b1-1b0f-417d-9059-8b94a47197e"), None);
}

#[test]
fn audio_flow_definition() {
    let def = audio_flow_def("5fbec3b1-1b0f-417d-9059-8b94a47197ed", 2, 48000, 32).unwrap();
    assert_eq!(def.id, 0x5fbec3b1_1b0f_417d_9059_8b94a47197ed);
    assert_eq!(def, audio_flow_def_with_id(0x5fbec3b1_1b0f_417d_9059_8b94a47197ed, 2, 48000, 32));
    assert_eq!(def.description, "MXL Audio Flow");
    assert_eq!(def.label, "MXL Audio Flow");
    assert_eq!(def.format, "urn:x-nmos:format:audio");
    assert_eq!(def.media_type, "audio/float32");
    assert_eq!(
        def.tags,
        vec![(
            String::from("urn:x-nmos:tag:grouphint/v1.0"),
            vec![String::from("Media Function XYZ:Audio")]
        )]
    );
    assert_eq!(def.sample_rate.numerator, 48000);
    assert_eq!(def.channel_count, 2);
    assert_eq!(def.bit_depth, 32);
    assert_eq!(def.parents, Vec::<String>::new());
    assert_eq!(audio_flow_def("not a uuid", 2, 48000, 32), Err(FlowDefError::InvalidFlowId));
}

#[test]
fn video_flow_definition_with_defaults() {
    let open = VideoCaps {
        format: None,
        width: None,
        height: None,
        framerate: None,
        interlace_mode: None,
        colorimetry: None,
    };
    let def = video_flow_def(&open, "5fbec3b1-1b0f-417d-9059-8b94a47197ed").unwrap();
    assert_eq!(def.description, "MXL Test Flow, 1080p29");
    assert_eq!(def.id, "5fbec3b1-1b0f-417d-9059-8b94a47197ed");
    assert_eq!(
        def.tags,
        vec![(
            String::from("urn:x-nmos:tag:grouphint/v1.0"),
            vec![String::from("Media Function XYZ:Video")]
        )]
    );
    assert_eq!(def.format, "urn:x-nmos:format:video");
    assert_eq!(def.label, "MXL Test Flow, 1080p29");
    assert_eq!(def.parents, Vec::<String>::new());
    assert_eq!(def.media_type, "video/v210");
    assert_eq!(def.grain_rate, GrainRate { numerator: 30000, denominator: 1001 });
    assert_eq!(def.frame_width, 1920);
    assert_eq!(def.frame_height, 1080);
    assert_eq!(def.interlace_mode, "progressive");
    assert_eq!(def.colorspace, "BT709");
    let names: Vec<(&str, i32, i32, u8)> = def
        .components
        .iter()
        .map(|c| (c.name.as_str(), c.width, c.height, c.bit_depth))
        .collect();
    assert_eq!(names, vec![("Y", 1920, 1080, 10), ("Cb", 960, 1080, 10), ("Cr", 960, 1080, 10)]);
}

#[test]
fn video_flow_definition_from_caps() {
    let caps = VideoCaps {
        format: Some(String::from("v210a")),
        width: Some(-1281),
        height: Some(720),
        framerate: Some(GrainRate { numerator: -50, denominator: 3 }),
        interlace_mode: Some(String::from("interlaced_tff")),
        colorimetry: Some(String::from("BT2020")),
    };
    let def = video_flow_def(&caps, "any name").unwrap();
    assert_eq!(def.description, "MXL Test Flow, 1080p-16");
    assert_eq!(def.media_type, "video/v210a");
    assert_eq!(def.id, "any name");
    assert_eq!(def.interlace_mode, "interlaced_tff");
    assert_eq!(def.colorspace, "BT2020");
    assert_eq!(def.components[1].width, -640);
    let no_rate = VideoCaps { framerate: Some(GrainRate { numerator: 25, denominator: 0 }), ..caps.clone() };
    assert_eq!(video_flow_def(&no_rate, "x"), Err(FlowDefError::InvalidFrameRate));
    let negative = VideoCaps { framerate: Some(GrainRate { numerator: 25, denominator: -1 }), ..caps };
    assert_eq!(video_flow_def(&negative, "x"), Err(FlowDefError::InvalidFrameRate));
}

#[test]
fn a_writing_session_is_bound_to_the_flow_that_was_created() {
    let mut element = mxlsink::imp::MxlSink::default();
    assert_eq!(element.render(), Err(SessionError::StateError));
    assert_eq!(element.stop(), Err(SessionError::StateError));
    element.start();
    assert!(!element.clock_wait.flushing);
    assert_eq!(element.render(), Ok(MediaKind::Audio));
    let state = element.context.state.as_mut().unwrap();
    let continuous = FlowConfigInfo::Continuous {
        sample_rate: Rational { numerator: 48000, denominator: 1 },
        buffer_length: 4096,
        max_commit_batch_size_hint: 512,
    };
    let discrete = FlowConfigInfo::Discrete {
        grain_rate: VIDEO,
        grain_count: 8,
        max_commit_batch_size_hint: 1,
    };
    assert_eq!(init_state_with_video(state, continuous, 5), Err(SessionError::EngineUnavailable));
    assert_eq!(state.video, None);
    assert_eq!(init_state_with_video(state, discrete, 5), Ok(()));
    assert_eq!(
        state.video,
        Some(mxlsink::state::VideoState { grain_index: 5, grain_rate: VIDEO, grain_count: 8 })
    );
    assert_eq!(state.flow, Some(discrete));
    assert_eq!(element.render(), Ok(MediaKind::Video));
    assert_eq!(element.stop(), Ok(mxlsink::imp::Release { audio: false, video: true }));
    assert!(element.clock_wait.flushing);
    assert_eq!(element.context.state.as_ref().unwrap().video, None);

    element.start();
    let state = element.context.state.as_mut().unwrap();
    let def = audio_flow_def_with_id(9, 2, 48000, 32);
    init_state_with_audio(state, def.clone(), continuous);
    let audio = state.audio.as_ref().unwrap();
    assert_eq!(audio.bit_depth, 32);
    assert_eq!(audio.batch_size, 512);
    assert_eq!(audio.flow_def, def);
    assert_eq!(audio.next_write_index, None);
    assert_eq!(continuous.max_commit_batch_size_hint(), 512);
    assert_eq!(element.stop(), Ok(mxlsink::imp::Release { audio: true, video: false }));
    assert_eq!(element.stop(), Ok(mxlsink::imp::Release { audio: false, video: false }));
}

#[test]
fn flow_definitions_compare_by_their_fields() {
    let def = FlowDef {
        id: 0x5fbec3b1_1b0f_417d_9059_8b94a47197ed,
        description: String::from("MXL Test Flow, 1080p29"),
        tags: vec![],
        format: String::from("urn:x-nmos:format:video"),
        label: String::from("MXL Test Flow, 1080p29"),
        parents: vec![],
        media_type: String::from("video/v210"),
        details: FlowDefDetails::Video(FlowDefVideo {
            grain_rate: Rate { numerator: 30000, denominator: 1001 },
            frame_width: 1920,
            frame_height: 1080,
            interlace_mode: InterlaceMode::Progressive,
            colorspace: String::from("BT709"),
            components: vec![Component {
                name: String::from("Y"),
                width: 1920,
                height: 1080,
                bit_depth: 10,
            }],
        }),
    };
    assert_eq!(def.clone(), def);
    let mut other = def.clone();
    other.id += 1;
    assert_ne!(other, def);
}

#[test]
fn the_parts_of_an_element_work_on_their_own() {
    let mut settings = Settings::default();
    assert!(settings.set_property("domain", String::from("/dev/shm")));
    assert!(!settings.set_property("Domain", String::from("x")));
    assert_eq!(settings.property("domain"), Some(String::from("/dev/shm")));
    assert_eq!(settings.negotiate(), Negotiation::Fallback);
    assert!(settings.set_property("video-flow-id", String::from("v")));
    assert_eq!(settings.negotiate(), Negotiation::Describe(String::from("v")));

    let mut clock_wait = ClockWait::default();
    assert!(!clock_wait.may_wait());
    clock_wait.unlock_stop();
    assert!(clock_wait.may_wait());
    clock_wait.unlock();
    assert!(!clock_wait.may_wait());

    let mut context = Context::default();
    assert_eq!(context.phase(), SessionPhase::Stopped);
    assert_eq!(context.try_create(), Err(SessionError::StateError));
    context.start(init(&settings, Some(VIDEO)).unwrap());
    assert_eq!(context.phase(), SessionPhase::Uninitialized);
    assert_eq!(context.try_create(), Ok(MediaKind::Video));
    context.stop();
    assert_eq!(context.phase(), SessionPhase::Stopped);
    assert_eq!(context.try_create(), Err(SessionError::StateError));

    let mut sink_settings = mxlsink::state::Settings::default();
    assert!(sink_settings.set_property("flow-id", String::from("f")));
    assert_eq!(sink_settings.property("flow-id"), "f");
    let mut sink_context = mxlsink::state::Context::default();
    assert_eq!(sink_context.render(), Err(SessionError::StateError));
    sink_context.start();
    assert_eq!(sink_context.render(), Ok(MediaKind::Audio));
    assert_eq!(sink_context.stop(), Ok(mxlsink::imp::Release { audio: false, video: false }));
    let mut sink_wait = mxlsink::imp::ClockWait::default();
    sink_wait.unlock_stop();
    assert!(!sink_wait.flushing);
    sink_wait.unlock();
    assert!(sink_wait.flushing);
}

#[test]
fn a_session_passes_through_its_phases() {
    let mut settings = Settings::default();
    settings.set_property("audio-flow-id", String::from("a"));
    let mut context = Context::default();
    context.start(init(&settings, None).unwrap());
    assert_eq!(context.phase(), SessionPhase::Uninitialized);
    let rate = Rational { numerator: 48000, denominator: 1 };
    let batch = begin_audio(context.state.as_mut().unwrap(), 4096, 48, 20_000, Some(0), 0).unwrap();
    assert_eq!(context.phase(), SessionPhase::Anchored);
    let window = || {
        Some(RingWindow { channels: vec![ChannelPlanes { plane1: vec![0; 192], plane2: vec![] }] })
    };
    plan_audio_read(context.state.as_mut().unwrap(), 20_000, batch, 4096, 0, 0).unwrap();
    create_audio(context.state.as_mut().unwrap(), batch, &rate, 0, window()).unwrap();
    assert_eq!(context.phase(), SessionPhase::Steady);
    // The producer runs away: the reader jumps.
    let request =
        plan_audio_read(context.state.as_mut().unwrap(), 90_000, batch, 4096, 5, 6).unwrap();
    assert!(request.caught_up);
    assert_eq!(context.phase(), SessionPhase::Resyncing);
    create_audio(context.state.as_mut().unwrap(), batch, &rate, 5, window()).unwrap();
    assert_eq!(context.phase(), SessionPhase::Steady);
    context.stop();
    assert_eq!(context.phase(), SessionPhase::Stopped);
}
