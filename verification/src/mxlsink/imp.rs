//! The writing element, without its handles on the engine and on the
//! pipeline: its settings, its session and its cancellation flag.

use vstd::prelude::*;
use vstd::bits::low_bits_mask;
use crate::error::SessionError;
use crate::mxlsrc::mxl_helper::generate_channel_mask_from_channels;
use crate::flow::flowdef::MediaKind;
use crate::mxlsink::state::{Context, Settings, State};
use crate::text::same_text;

verus! {

/// Whether a wait of the element has been told to end.
#[derive(Clone, Copy, Debug, PartialEq, Eq, Structural)]
pub struct ClockWait {
    /// Set by `unlock`: a wait that is under way ends at once, and none is
    /// begun, until `unlock_stop` clears it.
    pub flushing: bool,
}

impl Default for ClockWait {
    fn default() -> (r: ClockWait)
        ensures
            r.flushing,
    {
        ClockWait { flushing: true }
    }
}

/// The element that writes a flow. The embedding program keeps it behind
/// one lock for each operation.
#[derive(Clone, Debug)]
pub struct MxlSink {
    pub settings: Settings,
    pub context: Context,
    pub clock_wait: ClockWait,
}

/// The writers that a stopped session has to give back to the engine.
#[derive(Clone, Copy, Debug, PartialEq, Eq, Structural)]
pub struct Release {
    pub audio: bool,
    pub video: bool,
}

/// One entry of the capabilities that the input pad offers.
#[derive(Clone, Debug, PartialEq, Eq)]
pub enum PadCaps {
    /// Raw video in the given format.
    Video { format: String },
    /// Raw audio in the given format and layout, with the given number of
    /// channels at the given positions.
    Audio { format: String, layout: String, channels: i32, channel_mask: u64 },
}

/// Whether `caps` offers interleaved audio of 32-bit floats with `channels`
/// channels at the first `channels` positions.
pub open spec fn is_audio_template(caps: PadCaps, channels: int) -> bool {
    &&& caps matches PadCaps::Audio { format, layout, channels: count, channel_mask }
    &&& format@ == "F32LE"@
    &&& layout@ == "interleaved"@
    &&& count == channels
    &&& channel_mask == low_bits_mask(channels as nat)
}

pub open spec fn is_flow_name(name: Seq<char>) -> bool {
    name == "flow-id"@
}

pub open spec fn is_domain_name(name: Seq<char>) -> bool {
    name == "domain"@
}

/// The settings after the property `name` was set to `value`; a name that
/// the element does not know changes nothing.
pub open spec fn settings_with(settings: Settings, name: Seq<char>, value: String) -> Settings {
    if is_flow_name(name) {
        Settings { flow_id: value, ..settings }
    } else if is_domain_name(name) {
        Settings { domain: value, ..settings }
    } else {
        settings
    }
}

impl Settings {
    /// Sets the property `name` to `value`. Returns whether the element
    /// knows a property of that name.
    pub fn set_property(&mut self, name: &str, value: String) -> (known: bool)
        ensures
            known == (is_flow_name(name@) || is_domain_name(name@)),
            *final(self) == settings_with(*old(self), name@, value),
    {
        if same_text(name, "flow-id") {
            self.flow_id = value;
            true
        } else if same_text(name, "domain") {
            self.domain = value;
            true
        } else {
            false
        }
    }

    /// The value of the property `name`; the empty text for a name that the
    /// element does not know.
    pub fn property(&self, name: &str) -> (value: String)
        ensures
            is_flow_name(name@) ==> value == self.flow_id,
            is_domain_name(name@) ==> value == self.domain,
            !is_flow_name(name@) && !is_domain_name(name@) ==> value@.len() == 0,
    {
        proof {
            reveal_strlit("flow-id");
            reveal_strlit("domain");
            assert("flow-id"@[0] == 'f');
            assert("domain"@[0] == 'd');
        }
        if same_text(name, "flow-id") {
            self.flow_id.clone()
        } else if same_text(name, "domain") {
            self.domain.clone()
        } else {
            String::new()
        }
    }
}

impl ClockWait {
    /// Tells a wait that is under way to end at once.
    pub fn unlock(&mut self)
        ensures
            final(self).flushing,
    {
        self.flushing = true;
    }

    /// Allows waits again.
    pub fn unlock_stop(&mut self)
        ensures
            !final(self).flushing,
    {
        self.flushing = false;
    }
}

impl Context {
    /// Starts a session that is bound to no flow yet.
    pub fn start(&mut self)
        ensures
            final(self).state == Some(
                State { flow: None, video: None, audio: None, initial_time: None },
            ),
    {
        self.state = Some(State { flow: None, video: None, audio: None, initial_time: None });
    }

    /// Stops the session: it lets go of its flow, so that nothing can be
    /// written any more. Says which writers the embedding program has to
    /// give back to the engine. Fails where no session was started.
    pub fn stop(&mut self) -> (r: Result<Release, SessionError>)
        ensures
            match r {
                Ok(release) => {
                    &&& old(self).state is Some
                    &&& release.audio == (old(self).state.unwrap().audio is Some)
                    &&& release.video == (old(self).state.unwrap().video is Some)
                    &&& final(self).state == Some(
                        State { video: None, audio: None, ..old(self).state.unwrap() },
                    )
                },
                Err(e) => {
                    &&& e == SessionError::StateError
                    &&& old(self).state is None
                    &&& final(self).state is None
                },
            },
    {
        match &mut self.state {
            None => Err(SessionError::StateError),
            Some(state) => {
                let release: Release = Release {
                    audio: state.audio.is_some(),
                    video: state.video.is_some(),
                };
                state.audio = None;
                state.video = None;
                Ok(release)
            },
        }
    }

    /// Says how a buffer is written: as a grain by a session that writes
    /// video, else as samples. Fails where no session was started.
    pub fn render(&self) -> (r: Result<MediaKind, SessionError>)
        ensures
            match r {
                Ok(kind) => {
                    &&& self.state is Some
                    &&& kind == if self.state.unwrap().video is Some {
                        MediaKind::Video
                    } else {
                        MediaKind::Audio
                    }
                },
                Err(e) => e == SessionError::StateError && self.state is None,
            },
    {
        match &self.state {
            None => Err(SessionError::StateError),
            Some(state) => if state.video.is_some() {
                Ok(MediaKind::Video)
            } else {
                Ok(MediaKind::Audio)
            },
        }
    }
}

impl Default for MxlSink {
    fn default() -> (r: MxlSink)
        ensures
            r.settings.flow_id@.len() == 0,
            r.settings.domain@.len() == 0,
            r.context.state is None,
            r.clock_wait.flushing,
    {
        MxlSink {
            settings: Settings::default(),
            context: Context::default(),
            clock_wait: ClockWait::default(),
        }
    }
}

impl MxlSink {
    /// Sets the property `name` to `value`. Returns whether the element
    /// knows a property of that name.
    pub fn set_property(&mut self, name: &str, value: String) -> (known: bool)
        ensures
            known == (is_flow_name(name@) || is_domain_name(name@)),
            final(self).settings == settings_with(old(self).settings, name@, value),
            final(self).context == old(self).context,
            final(self).clock_wait == old(self).clock_wait,
    {
        self.settings.set_property(name, value)
    }

    /// The value of the property `name`; the empty text for a name that the
    /// element does not know.
    pub fn property(&self, name: &str) -> (value: String)
        ensures
            is_flow_name(name@) ==> value == self.settings.flow_id,
            is_domain_name(name@) ==> value == self.settings.domain,
            !is_flow_name(name@) && !is_domain_name(name@) ==> value@.len() == 0,
    {
        self.settings.property(name)
    }

    /// The capabilities that the input pad offers: raw video in the format
    /// `v210`, and interleaved audio of 32-bit floats with 1 to 63 channels.
    pub fn pad_templates() -> (caps: Vec<PadCaps>)
        ensures
            caps@.len() == 64,
            caps@[0] matches PadCaps::Video { format } && format@ == "v210"@,
            forall|ch: int| 1 <= ch < 64 ==> is_audio_template(#[trigger] caps@[ch], ch),
    {
        let mut caps: Vec<PadCaps> = Vec::new();
        caps.push(PadCaps::Video { format: "v210".to_owned() });
        let mut ch: u32 = 1;
        while ch < 64
            invariant
                1 <= ch <= 64,
                caps@.len() == ch,
                caps@[0] matches PadCaps::Video { format } && format@ == "v210"@,
                forall|c: int| 1 <= c < ch ==> is_audio_template(#[trigger] caps@[c], c),
            decreases 64 - ch,
        {
            caps.push(
                PadCaps::Audio {
                    format: "F32LE".to_owned(),
                    layout: "interleaved".to_owned(),
                    channels: ch as i32,
                    channel_mask: generate_channel_mask_from_channels(ch),
                },
            );
            ch += 1;
        }
        caps
    }

    /// Starts a session that is bound to no flow yet, and allows waits again.
    pub fn start(&mut self)
        ensures
            final(self).context.state == Some(
                State { flow: None, video: None, audio: None, initial_time: None },
            ),
            !final(self).clock_wait.flushing,
            final(self).settings == old(self).settings,
    {
        self.clock_wait.unlock_stop();
        self.context.start();
    }

    /// Stops the session: a wait that is under way is told to end, and the
    /// session lets go of its flow. Says which writers the embedding
    /// program has to give back to the engine. Fails where no session was
    /// started.
    pub fn stop(&mut self) -> (r: Result<Release, SessionError>)
        ensures
            final(self).clock_wait.flushing,
            final(self).settings == old(self).settings,
            match r {
                Ok(release) => {
                    &&& old(self).context.state is Some
                    &&& release.audio == (old(self).context.state.unwrap().audio is Some)
                    &&& release.video == (old(self).context.state.unwrap().video is Some)
                    &&& final(self).context.state == Some(
                        State { video: None, audio: None, ..old(self).context.state.unwrap() },
                    )
                },
                Err(e) => {
                    &&& e == SessionError::StateError
                    &&& old(self).context.state is None
                    &&& final(self).context.state is None
                },
            },
    {
        self.clock_wait.unlock();
        self.context.stop()
    }

    /// Says how a buffer is written: as a grain by a session that writes
    /// video, else as samples. Fails where no session was started.
    pub fn render(&self) -> (r: Result<MediaKind, SessionError>)
        ensures
            match r {
                Ok(kind) => {
                    &&& self.context.state is Some
                    &&& kind == if self.context.state.unwrap().video is Some {
                        MediaKind::Video
                    } else {
                        MediaKind::Audio
                    }
                },
                Err(e) => e == SessionError::StateError && self.context.state is None,
            },
    {
        self.context.render()
    }

    /// Says which kind of flow the element creates for a stream whose
    /// capabilities are named `name`: an audio flow for raw audio, else a
    /// video flow.
    pub fn set_caps(name: &str) -> (kind: MediaKind)
        ensures
            kind == if name@ == "audio/x-raw"@ {
                MediaKind::Audio
            } else {
                MediaKind::Video
            },
    {
        if same_text(name, "audio/x-raw") {
            MediaKind::Audio
        } else {
            MediaKind::Video
        }
    }

    /// Tells a wait that is under way to end at once.
    pub fn unlock(&mut self)
        ensures
            final(self).clock_wait.flushing,
            final(self).context == old(self).context,
            final(self).settings == old(self).settings,
    {
        self.clock_wait.unlock();
    }

    /// Allows waits again.
    pub fn unlock_stop(&mut self)
        ensures
            !final(self).clock_wait.flushing,
            final(self).context == old(self).context,
            final(self).settings == old(self).settings,
    {
        self.clock_wait.unlock_stop();
    }
}

} // verus!
