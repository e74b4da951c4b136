//! The reading element: what a cycle hands to the pipeline.

use vstd::prelude::*;
use crate::error::SessionError;
use crate::flow::flowdef::{MediaKind, Rate};
use crate::mxlsrc::create_audio::{audio_begun, audio_planned, audio_result, audio_state_after, reader_is_late};
use crate::mxlsrc::create_video::{video_result, video_state_after, GrainData};
use crate::mxlsrc::mxl_helper::{flow_of, get_flow_type_id};
use crate::ring::RingWindow;
use crate::translate::Rational;
use crate::mxlsrc::state::{Context, Settings, State};
use crate::text::same_text;

verus! {

/// A buffer for the pipeline, as plain values.
#[derive(Clone, Debug, PartialEq, Eq)]
pub struct Buffer {
    /// The presentation timestamp, in nanoseconds of running time.
    pub pts: u64,
    /// Whether the buffer does not continue the one before it.
    pub discont: bool,
    pub data: Vec<u8>,
}

/// The outcome of one cycle that did not fail.
#[derive(Clone, Debug, PartialEq, Eq)]
pub enum CreateState {
    DataCreated(Buffer),
    /// The flow had nothing to give within the time allowed.
    NoDataCreated,
}

impl CreateState {
    /// The timestamp of the buffer that was produced, if one was.
    pub open spec fn pts(self) -> Option<u64> {
        match self {
            CreateState::DataCreated(buffer) => Some(buffer.pts),
            CreateState::NoDataCreated => None,
        }
    }

    /// The timestamp of the buffer that was produced, and whether it is
    /// marked as a discontinuity.
    pub open spec fn marks(self) -> Option<(u64, bool)> {
        match self {
            CreateState::DataCreated(buffer) => Some((buffer.pts, buffer.discont)),
            CreateState::NoDataCreated => None,
        }
    }
}

/// Whether a wait of the element has been told to end.
#[derive(Clone, Copy, Debug, PartialEq, Eq, Structural)]
pub struct ClockWait {
    /// Set by `unlock`: a wait that is under way ends at once, and none is
    /// begun, until `unlock_stop` clears it.
    pub flushing: bool,
}

impl Default for ClockWait {
    fn default() -> (r: ClockWait)
        ensures
            r.flushing,
    {
        ClockWait { flushing: true }
    }
}

/// The element that reads a flow, without its handles on the engine and on
/// the pipeline: its settings, its session and its cancellation flag. The
/// embedding program keeps it behind one lock for each operation.
#[derive(Clone, Debug)]
pub struct MxlSrc {
    pub settings: Settings,
    pub context: Context,
    pub clock_wait: ClockWait,
}

/// Where a session stands.
#[derive(Clone, Copy, Debug, PartialEq, Eq, Structural)]
pub enum SessionPhase {
    /// Started, but no unit was asked for yet: there is no anchor.
    Uninitialized,
    /// The anchor is set and no unit was handed out since.
    Anchored,
    /// Units are handed out, counted from the anchor.
    Steady,
    /// The reader jumped forward: the anchor is new, and the next unit will
    /// be marked as a discontinuity.
    Resyncing,
    /// Not started, or stopped: every operation fails.
    Stopped,
}

/// What the element does about the capabilities of its output.
#[derive(Clone, Debug, PartialEq, Eq)]
pub enum Negotiation {
    /// Leave it to the pipeline: the settings name both kinds of flow, or no
    /// domain, or no flow.
    Fallback,
    /// Ask the engine for the definition of this flow, and offer what
    /// `set_json_caps` makes of it.
    Describe(String),
}

/// What the element does after a cycle that produced nothing.
#[derive(Clone, Copy, Debug, PartialEq, Eq, Structural)]
pub enum Retry {
    /// The pipeline is paused or shut down: the stream has ended.
    EndOfStream,
    /// The flow is stale: open it anew and try again.
    Reopen,
}

/// The fields of the capabilities that the pipeline set on the output; a
/// field is `None` where the capabilities do not name it.
#[derive(Clone, Debug, PartialEq, Eq)]
pub struct SrcCaps {
    pub format: Option<String>,
    pub width: Option<i32>,
    pub height: Option<i32>,
    pub framerate: Option<Rate>,
    pub interlace_mode: Option<String>,
    pub colorimetry: Option<String>,
    pub rate: Option<i32>,
    pub channels: Option<i32>,
}

impl SrcCaps {
    /// Whether the capabilities are those of a video stream that the
    /// element can produce.
    pub open spec fn is_video(self) -> bool {
        &&& self.format is Some
        &&& self.format.unwrap()@ == "v210"@
        &&& self.width is Some
        &&& self.height is Some
        &&& self.framerate is Some
        &&& self.interlace_mode is Some
        &&& self.colorimetry is Some
    }

    /// Whether the capabilities are those of an audio stream that the
    /// element can produce.
    pub open spec fn is_audio(self) -> bool {
        &&& self.format is Some
        &&& self.format.unwrap()@ == "F32LE"@
        &&& self.rate is Some
        &&& self.channels is Some
    }
}

/// One entry of the capabilities that a pad offers.
#[derive(Clone, Debug, PartialEq, Eq)]
pub struct PadCaps {
    /// The name of the media type.
    pub name: String,
    pub format: String,
}

/// The property names of the element.
pub open spec fn is_video_flow_name(name: Seq<char>) -> bool {
    name == "video-flow-id"@
}

pub open spec fn is_audio_flow_name(name: Seq<char>) -> bool {
    name == "audio-flow-id"@
}

pub open spec fn is_domain_name(name: Seq<char>) -> bool {
    name == "domain"@
}

/// The settings after the property `name` was set to `value`; a name that
/// the element does not know changes nothing.
pub open spec fn settings_with(settings: Settings, name: Seq<char>, value: String) -> Settings {
    if is_video_flow_name(name) {
        Settings { video_flow: Some(value), ..settings }
    } else if is_audio_flow_name(name) {
        Settings { audio_flow: Some(value), ..settings }
    } else if is_domain_name(name) {
        Settings { domain: value, ..settings }
    } else {
        settings
    }
}

/// The phase of a session with the given state.
pub open spec fn phase_of(state: Option<State>) -> SessionPhase {
    match state {
        None => SessionPhase::Stopped,
        Some(state) => match (state.video, state.audio) {
            (Some(video), _) => if !video.is_initialized {
                SessionPhase::Uninitialized
            } else if video.frame_counter == 0 {
                SessionPhase::Anchored
            } else {
                SessionPhase::Steady
            },
            (None, Some(audio)) => if !audio.is_initialized {
                SessionPhase::Uninitialized
            } else if audio.next_discont {
                SessionPhase::Resyncing
            } else if audio.batch_counter == 0 {
                SessionPhase::Anchored
            } else {
                SessionPhase::Steady
            },
            (None, None) => SessionPhase::Stopped,
        },
    }
}

impl Settings {
    /// Sets the property `name` to `value`. Returns whether the element
    /// knows a property of that name.
    pub fn set_property(&mut self, name: &str, value: String) -> (known: bool)
        ensures
            known == (is_video_flow_name(name@) || is_audio_flow_name(name@) || is_domain_name(
                name@,
            )),
            *final(self) == settings_with(*old(self), name@, value),
    {
        if same_text(name, "video-flow-id") {
            self.video_flow = Some(value);
            true
        } else if same_text(name, "audio-flow-id") {
            self.audio_flow = Some(value);
            true
        } else if same_text(name, "domain") {
            self.domain = value;
            true
        } else {
            false
        }
    }

    /// The value of the property `name`: `None` for a flow that is not set,
    /// and the empty text for a name that the element does not know.
    pub fn property(&self, name: &str) -> (value: Option<String>)
        ensures
            is_video_flow_name(name@) ==> value == self.video_flow,
            is_audio_flow_name(name@) ==> value == self.audio_flow,
            is_domain_name(name@) ==> value == Some(self.domain),
            !is_video_flow_name(name@) && !is_audio_flow_name(name@) && !is_domain_name(name@)
                ==> value is Some && value.unwrap()@.len() == 0,
    {
        proof {
            reveal_strlit("video-flow-id");
            reveal_strlit("audio-flow-id");
            reveal_strlit("domain");
            assert("video-flow-id"@[0] == 'v');
            assert("audio-flow-id"@[0] == 'a');
            assert("domain"@[0] == 'd');
        }
        if same_text(name, "video-flow-id") {
            match &self.video_flow {
                Some(id) => Some(id.clone()),
                None => None,
            }
        } else if same_text(name, "audio-flow-id") {
            match &self.audio_flow {
                Some(id) => Some(id.clone()),
                None => None,
            }
        } else if same_text(name, "domain") {
            Some(self.domain.clone())
        } else {
            Some(String::new())
        }
    }

    /// Decides how the capabilities of the output are found.
    pub fn negotiate(&self) -> (r: Negotiation)
        ensures
            match r {
                Negotiation::Fallback => (self.audio_flow is Some && self.video_flow is Some)
                    || self.domain@.len() == 0 || flow_of(*self) is None,
                Negotiation::Describe(id) => {
                    &&& !(self.audio_flow is Some && self.video_flow is Some)
                    &&& self.domain@.len() > 0
                    &&& flow_of(*self) == Some(id)
                },
            },
    {
        if self.audio_flow.is_some() && self.video_flow.is_some() {
            return Negotiation::Fallback;
        }
        if self.domain.as_str().is_empty() {
            return Negotiation::Fallback;
        }
        match get_flow_type_id(self) {
            Ok(id) => Negotiation::Describe(id.clone()),
            Err(_) => Negotiation::Fallback,
        }
    }
}

impl ClockWait {
    /// Tells a wait that is under way to end at once.
    pub fn unlock(&mut self)
        ensures
            final(self).flushing,
    {
        self.flushing = true;
    }

    /// Allows waits again.
    pub fn unlock_stop(&mut self)
        ensures
            !final(self).flushing,
    {
        self.flushing = false;
    }

    /// Whether a wait may begin or go on.
    pub fn may_wait(&self) -> (may: bool)
        ensures
            may == !self.flushing,
    {
        !self.flushing
    }
}

impl Context {
    /// Starts a session with the state that `init` made.
    pub fn start(&mut self, state: State)
        ensures
            final(self).state == Some(state),
    {
        self.state = Some(state);
    }

    /// Stops the session: its state is dropped. The embedding program
    /// closes the handles.
    pub fn stop(&mut self)
        ensures
            final(self).state is None,
            phase_of(final(self).state) == SessionPhase::Stopped,
    {
        self.state = None;
    }

    /// Says which kind of cycle the session runs; fails where the session is
    /// not active.
    pub fn try_create(&self) -> (r: Result<MediaKind, SessionError>)
        ensures
            match r {
                Ok(MediaKind::Video) => self.state is Some && self.state.unwrap().video is Some,
                Ok(MediaKind::Audio) => {
                    &&& self.state is Some
                    &&& self.state.unwrap().video is None
                    &&& self.state.unwrap().audio is Some
                },
                Err(e) => e == SessionError::StateError && phase_of(self.state)
                    == SessionPhase::Stopped,
            },
    {
        match &self.state {
            None => Err(SessionError::StateError),
            Some(state) => {
                if state.video.is_some() {
                    Ok(MediaKind::Video)
                } else if state.audio.is_some() {
                    Ok(MediaKind::Audio)
                } else {
                    Err(SessionError::StateError)
                }
            },
        }
    }

    /// Where the session stands.
    pub fn phase(&self) -> (phase: SessionPhase)
        ensures
            phase == phase_of(self.state),
    {
        match &self.state {
            None => SessionPhase::Stopped,
            Some(state) => match (&state.video, &state.audio) {
                (Some(video), _) => if !video.is_initialized {
                    SessionPhase::Uninitialized
                } else if video.frame_counter == 0 {
                    SessionPhase::Anchored
                } else {
                    SessionPhase::Steady
                },
                (None, Some(audio)) => if !audio.is_initialized {
                    SessionPhase::Uninitialized
                } else if audio.next_discont {
                    SessionPhase::Resyncing
                } else if audio.batch_counter == 0 {
                    SessionPhase::Anchored
                } else {
                    SessionPhase::Steady
                },
                (None, None) => SessionPhase::Stopped,
            },
        }
    }
}

impl Default for MxlSrc {
    fn default() -> (r: MxlSrc)
        ensures
            r.settings.video_flow is None,
            r.settings.audio_flow is None,
            r.settings.domain@.len() == 0,
            r.context.state is None,
            r.clock_wait.flushing,
    {
        MxlSrc {
            settings: Settings::default(),
            context: Context::default(),
            clock_wait: ClockWait::default(),
        }
    }
}

impl MxlSrc {
    /// Sets the property `name` to `value`. Returns whether the element
    /// knows a property of that name.
    pub fn set_property(&mut self, name: &str, value: String) -> (known: bool)
        ensures
            known == (is_video_flow_name(name@) || is_audio_flow_name(name@) || is_domain_name(
                name@,
            )),
            final(self).settings == settings_with(old(self).settings, name@, value),
            final(self).context == old(self).context,
            final(self).clock_wait == old(self).clock_wait,
    {
        self.settings.set_property(name, value)
    }

    /// The value of the property `name`: `None` for a flow that is not set,
    /// and the empty text for a name that the element does not know.
    pub fn property(&self, name: &str) -> (value: Option<String>)
        ensures
            is_video_flow_name(name@) ==> value == self.settings.video_flow,
            is_audio_flow_name(name@) ==> value == self.settings.audio_flow,
            is_domain_name(name@) ==> value == Some(self.settings.domain),
            !is_video_flow_name(name@) && !is_audio_flow_name(name@) && !is_domain_name(name@)
                ==> value is Some && value.unwrap()@.len() == 0,
    {
        self.settings.property(name)
    }

    /// Decides how the capabilities of the output are found. Fails where the
    /// session is not active.
    pub fn negotiate(&self) -> (r: Result<Negotiation, SessionError>)
        ensures
            match r {
                Err(e) => e == SessionError::StateError && self.context.state is None,
                Ok(Negotiation::Fallback) => {
                    &&& self.context.state is Some
                    &&& ((self.settings.audio_flow is Some && self.settings.video_flow is Some)
                        || self.settings.domain@.len() == 0 || flow_of(self.settings) is None)
                },
                Ok(Negotiation::Describe(id)) => {
                    &&& self.context.state is Some
                    &&& !(self.settings.audio_flow is Some && self.settings.video_flow is Some)
                    &&& self.settings.domain@.len() > 0
                    &&& flow_of(self.settings) == Some(id)
                },
            },
    {
        if self.context.state.is_none() {
            return Err(SessionError::StateError);
        }
        Ok(self.settings.negotiate())
    }

    /// The capabilities that the output pad offers: raw video in the format
    /// `v210`, and raw audio in the format `F32LE`.
    pub fn pad_templates() -> (caps: Vec<PadCaps>)
        ensures
            caps@.len() == 2,
            caps@[0].name@ == "video/x-raw"@,
            caps@[0].format@ == "v210"@,
            caps@[1].name@ == "audio/x-raw"@,
            caps@[1].format@ == "F32LE"@,
    {
        let mut caps: Vec<PadCaps> = Vec::new();
        caps.push(PadCaps { name: "video/x-raw".to_owned(), format: "v210".to_owned() });
        caps.push(PadCaps { name: "audio/x-raw".to_owned(), format: "F32LE".to_owned() });
        caps
    }

    /// Accepts the capabilities that the pipeline set on the output, and
    /// says which kind of stream they describe. Fails where they name no
    /// format that the element can produce, or lack a field of that format.
    pub fn set_caps(caps: &SrcCaps) -> (r: Result<MediaKind, SessionError>)
        ensures
            match r {
                Ok(MediaKind::Video) => caps.is_video(),
                Ok(MediaKind::Audio) => caps.is_audio(),
                Err(e) => e == SessionError::StateError && !caps.is_video() && !caps.is_audio(),
            },
    {
        proof {
            reveal_strlit("v210");
            reveal_strlit("F32LE");
            assert("v210"@[0] == 'v');
            assert("F32LE"@[0] == 'F');
        }
        let format: &String = match &caps.format {
            Some(format) => format,
            None => {
                return Err(SessionError::StateError);
            },
        };
        if same_text(format.as_str(), "v210") {
            if caps.width.is_some() && caps.height.is_some() && caps.framerate.is_some()
                && caps.interlace_mode.is_some() && caps.colorimetry.is_some() {
                Ok(MediaKind::Video)
            } else {
                Err(SessionError::StateError)
            }
        } else if same_text(format.as_str(), "F32LE") {
            if caps.rate.is_some() && caps.channels.is_some() {
                Ok(MediaKind::Audio)
            } else {
                Err(SessionError::StateError)
            }
        } else {
            Err(SessionError::StateError)
        }
    }

    /// Starts a session with the state that `init` made: waits are allowed
    /// again.
    pub fn start(&mut self, state: State)
        ensures
            final(self).context.state == Some(state),
            !final(self).clock_wait.flushing,
            final(self).settings == old(self).settings,
    {
        self.clock_wait.unlock_stop();
        self.context.start(state);
    }

    /// Stops the session: its state is dropped, and a wait that is under way
    /// is told to end. Whatever the session was doing, every operation on it
    /// fails from now on.
    pub fn stop(&mut self)
        ensures
            final(self).context.state is None,
            phase_of(final(self).context.state) == SessionPhase::Stopped,
            final(self).clock_wait.flushing,
            final(self).settings == old(self).settings,
    {
        self.context.stop();
        self.clock_wait.unlock();
    }

    /// Tells a wait that is under way to end at once.
    pub fn unlock(&mut self)
        ensures
            final(self).clock_wait.flushing,
            final(self).context == old(self).context,
            final(self).settings == old(self).settings,
    {
        self.clock_wait.unlock();
    }

    /// Allows waits again.
    pub fn unlock_stop(&mut self)
        ensures
            !final(self).clock_wait.flushing,
            final(self).context == old(self).context,
            final(self).settings == old(self).settings,
    {
        self.clock_wait.unlock_stop();
    }

    /// Says which kind of cycle the session runs; fails where the session is
    /// not active.
    pub fn try_create(&self) -> (r: Result<MediaKind, SessionError>)
        ensures
            match r {
                Ok(MediaKind::Video) => self.context.state is Some
                    && self.context.state.unwrap().video is Some,
                Ok(MediaKind::Audio) => {
                    &&& self.context.state is Some
                    &&& self.context.state.unwrap().video is None
                    &&& self.context.state.unwrap().audio is Some
                },
                Err(e) => e == SessionError::StateError && phase_of(self.context.state)
                    == SessionPhase::Stopped,
            },
    {
        self.context.try_create()
    }

    /// Decides what follows a cycle that produced nothing.
    pub fn create(paused_or_shut_down: bool) -> (retry: Retry)
        ensures
            retry == if paused_or_shut_down {
                Retry::EndOfStream
            } else {
                Retry::Reopen
            },
    {
        if paused_or_shut_down {
            Retry::EndOfStream
        } else {
            Retry::Reopen
        }
    }

    /// Where the session stands.
    pub fn phase(&self) -> (phase: SessionPhase)
        ensures
            phase == phase_of(self.context.state),
    {
        self.context.phase()
    }
}

/// The phases of a session that reads samples follow one another as the
/// steps of a cycle do: the first step leaves the session with an anchor; a
/// jump in the lag check leaves it resyncing; and a cycle that produced a
/// buffer leaves it steady, with the discontinuity paid.
pub proof fn lemma_audio_session_phases(
    state: State,
    batch: u64,
    head: u64,
    ring: u64,
    now: u64,
    engine_time: u64,
    rate: Rational,
    samples: Option<RingWindow>,
)
    requires
        state.video is None,
        state.audio is Some,
    ensures
        ({
            let begun: State = audio_begun(state, batch, head, now, engine_time);
            let planned: State = audio_planned(begun, head, batch, ring, now, engine_time);
            let after: State = audio_state_after(planned, batch, rate, now, samples);
            &&& phase_of(Some(begun)) != SessionPhase::Uninitialized
            &&& phase_of(Some(begun)) != SessionPhase::Stopped
            &&& phase_of(Some(state)) == SessionPhase::Uninitialized ==> phase_of(Some(begun)) == (
            if state.audio.unwrap().next_discont {
                SessionPhase::Resyncing
            } else {
                SessionPhase::Anchored
            })
            &&& reader_is_late(begun, head, batch, ring) ==> phase_of(Some(planned))
                == SessionPhase::Resyncing
            &&& !reader_is_late(begun, head, batch, ring) ==> planned == begun
            &&& audio_result(planned, batch, rate, now, samples) matches Ok(Some(_))
                ==> phase_of(Some(after)) == SessionPhase::Steady
            &&& !(audio_result(planned, batch, rate, now, samples) matches Ok(Some(_))) ==> after
                == planned
        }),
{
}

/// The phases of a session that reads grains: a cycle that finds the
/// pipeline clock leaves the session with an anchor, and one that produced
/// a buffer leaves it steady. A new session whose first cycle produced
/// nothing is anchored.
pub proof fn lemma_video_session_phases(
    state: State,
    current_index: u64,
    now: u64,
    grain: Option<GrainData>,
)
    requires
        state.video is Some,
    ensures
        ({
            let after: State = video_state_after(state, current_index, Some(now), grain);
            &&& phase_of(Some(after)) != SessionPhase::Uninitialized
            &&& phase_of(Some(after)) != SessionPhase::Stopped
            &&& video_result(state, current_index, Some(now), grain) matches Ok(Some(_))
                ==> phase_of(Some(after)) == SessionPhase::Steady
            &&& !(video_result(state, current_index, Some(now), grain) matches Ok(Some(_)))
                && phase_of(Some(state)) == SessionPhase::Uninitialized
                && state.video.unwrap().frame_counter == 0 ==> phase_of(Some(after))
                == SessionPhase::Anchored
        }),
{
}

} // verus!
