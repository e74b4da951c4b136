//! A window onto the ring: the access that the engine grants to a run of
//! frames.
//!
//! The ring stores every channel on its own and holds `capacity` frames per
//! channel. A run of frames that starts at index `i` begins at frame
//! `i % capacity` of that storage; where it passes the end of the storage it
//! goes on at its beginning. A window therefore shows each channel as two
//! planes, the second of which is empty unless the run wraps.

use vstd::prelude::*;

verus! {

/// One channel of a window.
#[derive(Clone, Debug, PartialEq, Eq)]
pub struct ChannelPlanes {
    /// The bytes from the start of the run to the end of the storage.
    pub plane1: Vec<u8>,
    /// The bytes that wrapped round.
    pub plane2: Vec<u8>,
}

/// A window: one pair of planes for each channel.
#[derive(Clone, Debug, PartialEq, Eq)]
pub struct RingWindow {
    pub channels: Vec<ChannelPlanes>,
}

impl ChannelPlanes {
    /// The bytes of the channel in the order of the frames.
    pub open spec fn bytes(&self) -> Seq<u8> {
        self.plane1@ + self.plane2@
    }

    /// The number of bytes in both planes.
    pub fn len(&self) -> (n: usize)
        requires
            self.bytes().len() <= usize::MAX,
        ensures
            n == self.bytes().len(),
    {
        self.plane1.len() + self.plane2.len()
    }

    /// The byte at place `i` of the channel.
    pub fn byte(&self, i: usize) -> (b: u8)
        requires
            i < self.bytes().len(),
        ensures
            b == self.bytes()[i as int],
    {
        if i < self.plane1.len() {
            self.plane1[i]
        } else {
            self.plane2[i - self.plane1.len()]
        }
    }
}

impl RingWindow {
    /// Whether every channel holds `bytes` bytes.
    pub open spec fn uniform(&self, bytes: int) -> bool {
        forall|c: int|
            0 <= c < self.channels@.len() ==> (#[trigger] self.channels@[c]).bytes().len() == bytes
    }

    /// The number of bytes that the first channel holds; 0 without a channel.
    pub open spec fn channel_bytes(&self) -> int {
        if self.channels@.len() == 0 {
            0
        } else {
            self.channels@[0].bytes().len() as int
        }
    }

    /// Whether the window holds whole samples of `sample_size` bytes, as many
    /// for each channel, and no more bytes in a channel than can be counted.
    pub open spec fn well_formed(&self, sample_size: int) -> bool {
        &&& self.uniform(self.channel_bytes())
        &&& self.channel_bytes() % sample_size == 0
        &&& self.channel_bytes() <= usize::MAX
    }

    /// The number of frames in a well-formed window.
    pub open spec fn frames(&self, sample_size: int) -> int {
        self.channel_bytes() / sample_size
    }

    /// Whether the window holds whole samples of `sample_size` bytes, as many
    /// for each channel.
    pub fn is_well_formed(&self, sample_size: usize) -> (ok: bool)
        requires
            sample_size > 0,
        ensures
            ok == self.well_formed(sample_size as int),
    {
        if self.channels.len() == 0 {
            assert(0int % (sample_size as int) == 0) by (nonlinear_arith)
                requires
                    sample_size > 0,
            ;
            return true;
        }
        let first: &ChannelPlanes = &self.channels[0];
        match first.plane1.len().checked_add(first.plane2.len()) {
            Some(bytes) => self.is_uniform(bytes) && bytes % sample_size == 0,
            None => false,
        }
    }

    /// Whether every channel holds `bytes` bytes.
    pub fn is_uniform(&self, bytes: usize) -> (ok: bool)
        ensures
            ok == self.uniform(bytes as int),
    {
        let mut c: usize = 0;
        while c < self.channels.len()
            invariant
                c <= self.channels@.len(),
                forall|d: int| 0 <= d < c ==> (#[trigger] self.channels@[d]).bytes().len() == bytes,
            decreases self.channels@.len() - c,
        {
            let channel: &ChannelPlanes = &self.channels[c];
            let fits: bool = match channel.plane1.len().checked_add(channel.plane2.len()) {
                Some(n) => n == bytes,
                None => false,
            };
            if !fits {
                return false;
            }
            c += 1;
        }
        true
    }
}

/// Of a run of `frames` frames that starts at `index` in a ring of
/// `capacity` frames, the number that lie before the end of the storage.
pub open spec fn frames_before_wrap(capacity: int, index: int, frames: int) -> int {
    if frames <= capacity - index % capacity {
        frames
    } else {
        capacity - index % capacity
    }
}

/// Splits a run of `frames` frames that starts at `index` into the part
/// before the end of the ring's storage and the part that wraps round.
pub fn split_frames(capacity: u64, index: u64, frames: u64) -> (parts: (u64, u64))
    requires
        capacity > 0,
    ensures
        parts.0 == frames_before_wrap(capacity as int, index as int, frames as int),
        parts.0 + parts.1 == frames,
{
    let room: u64 = capacity - index % capacity;
    if frames <= room {
        (frames, 0)
    } else {
        (room, frames - room)
    }
}

} // verus!
