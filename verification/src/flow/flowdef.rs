//! The definition of a flow as the flow engine hands it out: the fields
//! common to all flows, and the details that depend on the media type.

use vstd::prelude::*;
use crate::text::same_text;

verus! {

/// The definition of one flow.
#[derive(Clone, Debug, PartialEq)]
pub struct FlowDef {
    /// The flow's identifier: the 128 bits of its UUID.
    pub id: u128,
    pub description: String,
    /// Tag names with their values, each name at most once.
    pub tags: Vec<(String, Vec<String>)>,
    pub format: String,
    pub label: String,
    pub parents: Vec<String>,
    pub media_type: String,
    pub details: FlowDefDetails,
}

/// The two kinds of flow.
#[derive(Clone, Copy, Debug, PartialEq, Eq, Structural)]
pub enum MediaKind {
    Video,
    Audio,
}

/// The part of a flow's definition that depends on its media type.
#[derive(Clone, Debug, PartialEq)]
pub enum FlowDefDetails {
    /// Media type `video/v210`.
    Video(FlowDefVideo),
    /// Media type `audio/float32`.
    Audio(FlowDefAudio),
}

#[derive(Clone, Debug, PartialEq)]
pub struct FlowDefVideo {
    pub grain_rate: Rate,
    pub frame_width: i32,
    pub frame_height: i32,
    pub interlace_mode: InterlaceMode,
    pub colorspace: String,
    pub components: Vec<Component>,
}

#[derive(Clone, Copy, Debug, PartialEq, Eq, Structural)]
pub enum InterlaceMode {
    Progressive,
    InterlacedTff,
    InterlacedBff,
}

#[derive(Clone, Copy, Debug, PartialEq, Eq, Structural)]
pub struct FlowDefAudio {
    pub sample_rate: Rate,
    pub channel_count: i32,
    pub bit_depth: u8,
}

/// A rate as a flow definition writes it. A definition that names no
/// denominator means the denominator `default_denominator()`.
#[derive(Clone, Copy, Debug, PartialEq, Eq, Structural)]
pub struct Rate {
    pub numerator: i32,
    pub denominator: i32,
}

#[derive(Clone, Debug, PartialEq)]
pub struct Component {
    pub name: String,
    pub width: i32,
    pub height: i32,
    pub bit_depth: u8,
}

/// The denominator of a rate whose definition names none.
pub fn default_denominator() -> (d: i32)
    ensures
        d == 1,
{
    1
}

impl InterlaceMode {
    /// The name of each mode in a flow definition.
    pub open spec fn name(self) -> Seq<char> {
        match self {
            InterlaceMode::Progressive => "progressive"@,
            InterlaceMode::InterlacedTff => "interlaced_tff"@,
            InterlaceMode::InterlacedBff => "interlaced_bff"@,
        }
    }

    /// The name of this mode in a flow definition.
    pub fn as_str(&self) -> (s: &'static str)
        ensures
            s@ == self.name(),
    {
        match self {
            InterlaceMode::Progressive => "progressive",
            InterlaceMode::InterlacedTff => "interlaced_tff",
            InterlaceMode::InterlacedBff => "interlaced_bff",
        }
    }

    /// The mode that a text names, if it names one.
    pub open spec fn named(text: Seq<char>) -> Option<InterlaceMode> {
        if text == "progressive"@ {
            Some(InterlaceMode::Progressive)
        } else if text == "interlaced_tff"@ {
            Some(InterlaceMode::InterlacedTff)
        } else if text == "interlaced_bff"@ {
            Some(InterlaceMode::InterlacedBff)
        } else {
            None
        }
    }

    /// Reads a mode from its name; any other text is refused.
    pub fn from_name(s: &str) -> (r: Result<InterlaceMode, ()>)
        ensures
            r == match InterlaceMode::named(s@) {
                Some(mode) => Ok::<InterlaceMode, ()>(mode),
                None => Err::<InterlaceMode, ()>(()),
            },
            match r {
                Ok(mode) => s@ == mode.name(),
                Err(_) => forall|mode: InterlaceMode| s@ != mode.name(),
            },
    {
        if same_text(s, "progressive") {
            Ok(InterlaceMode::Progressive)
        } else if same_text(s, "interlaced_tff") {
            Ok(InterlaceMode::InterlacedTff)
        } else if same_text(s, "interlaced_bff") {
            Ok(InterlaceMode::InterlacedBff)
        } else {
            Err(())
        }
    }
}

impl std::str::FromStr for InterlaceMode {
    type Err = ();

    /// Reads a mode from its name, as `from_name` does: the mode whose name
    /// the text is, and a failure for any other text.
    fn from_str(s: &str) -> (r: Result<Self, Self::Err>)
        ensures
            r == match InterlaceMode::named(s@) {
                Some(mode) => Ok::<InterlaceMode, ()>(mode),
                None => Err::<InterlaceMode, ()>(()),
            },
            match r {
                Ok(mode) => s@ == mode.name(),
                Err(_) => forall|mode: InterlaceMode| s@ != mode.name(),
            },
    {
        InterlaceMode::from_name(s)
    }
}

} // verus!
