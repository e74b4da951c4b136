//! Writing a batch of interleaved audio into the ring, one window at a time.
//!
//! The ring stores each channel on its own. A window onto it shows every
//! channel as two planes: the first runs from the start of the window to the
//! end of the ring's storage, the second holds what wrapped round to its
//! beginning. A sample is written whole into one of the two.

use vstd::prelude::*;
use vstd::slice::slice_subrange;
use crate::error::SessionError;
use crate::mxlsink::state::{AudioState, FlowConfigInfo, State};
use crate::ring::{ChannelPlanes, RingWindow};

verus! {

/// Whether a sample of `bytes_per_sample` bytes that starts at `offset` lies
/// within `plane`.
pub fn does_sample_fit_in_plane(bytes_per_sample: usize, plane: &[u8], offset: usize) -> (fits:
    bool)
    ensures
        fits == (offset + bytes_per_sample <= plane@.len()),
{
    let len: usize = plane.len();
    match offset.checked_add(bytes_per_sample) {
        Some(end) => end <= len,
        None => false,
    }
}

/// `plane` with the `sample` written over the bytes that start at `at`.
pub open spec fn overwritten(plane: Seq<u8>, at: int, sample: Seq<u8>) -> Seq<u8> {
    plane.subrange(0, at) + sample + plane.subrange(at + sample.len(), plane.len() as int)
}

/// Copies the sample that starts at `sample_offset` in `src_chunk` to the
/// bytes of `plane1` that start at `written`.
pub fn write_sample(
    bytes_per_sample: usize,
    src_chunk: &[u8],
    plane1: &mut [u8],
    written: usize,
    sample_offset: usize,
)
    requires
        written + bytes_per_sample <= old(plane1)@.len(),
        sample_offset + bytes_per_sample <= src_chunk@.len(),
    ensures
        final(plane1)@ == overwritten(
            old(plane1)@,
            written as int,
            src_chunk@.subrange(sample_offset as int, sample_offset + bytes_per_sample),
        ),
{
    let plane_len: usize = plane1.len();
    let src_len: usize = src_chunk.len();
    let mut k: usize = 0;
    while k < bytes_per_sample
        invariant
            k <= bytes_per_sample,
            plane_len == old(plane1)@.len(),
            src_len == src_chunk@.len(),
            written + bytes_per_sample <= old(plane1)@.len(),
            sample_offset + bytes_per_sample <= src_chunk@.len(),
            plane1@.len() == old(plane1)@.len(),
            forall|j: int| 0 <= j < written ==> plane1@[j] == old(plane1)@[j],
            forall|j: int| written <= j < written + k ==> plane1@[j] == src_chunk@[sample_offset + j - written],
            forall|j: int| written + k <= j < plane1@.len() ==> plane1@[j] == old(plane1)@[j],
        decreases bytes_per_sample - k,
    {
        plane1[written + k] = src_chunk[sample_offset + k];
        k += 1;
    }
    assert(plane1@ =~= overwritten(
        old(plane1)@,
        written as int,
        src_chunk@.subrange(sample_offset as int, sample_offset + bytes_per_sample),
    ));
}

/// The part of the interleaved source `src` that holds the frames of one
/// chunk: `chunk_bytes` bytes from frame `src_offset_samples` on.
pub fn compute_chunk(
    src: &[u8],
    bytes_per_sample: usize,
    num_channels: usize,
    src_offset_samples: usize,
    chunk_bytes: usize,
) -> (chunk: &[u8])
    requires
        src_offset_samples * num_channels * bytes_per_sample + chunk_bytes <= src@.len(),
    ensures
        chunk@ == src@.subrange(
            src_offset_samples * num_channels * bytes_per_sample,
            src_offset_samples * num_channels * bytes_per_sample + chunk_bytes,
        ),
{
    let src_len: usize = src.len();
    proof {
        let frames: int = src_offset_samples * num_channels;
        assert(0 <= frames) by (nonlinear_arith)
            requires
                frames == src_offset_samples * num_channels,
        ;
        assert(bytes_per_sample >= 1 ==> frames <= frames * bytes_per_sample) by (nonlinear_arith)
            requires
                0 <= frames,
        ;
    }
    let start: usize = if bytes_per_sample == 0 {
        0
    } else {
        src_offset_samples * num_channels * bytes_per_sample
    };
    slice_subrange(src, start, start + chunk_bytes)
}

/// Where the sample of channel `ch` in frame `i` starts in an interleaved
/// source of `num_channels` channels.
pub open spec fn source_offset(i: int, num_channels: int, ch: int, bytes_per_sample: int) -> int {
    i * num_channels * bytes_per_sample + ch * bytes_per_sample
}

/// Whether a source of `src_len` bytes holds the whole sample of channel `ch`
/// in frame `i`.
pub open spec fn holds_sample(
    src_len: int,
    i: int,
    num_channels: int,
    ch: int,
    bytes_per_sample: int,
) -> bool {
    source_offset(i, num_channels, ch, bytes_per_sample) + bytes_per_sample <= src_len
}

/// The number of samples that a channel takes from the source: the frames
/// from the first on, up to `limit`, whose samples the source holds.
pub open spec fn samples_taken(
    src_len: int,
    limit: int,
    num_channels: int,
    ch: int,
    bytes_per_sample: int,
) -> int
    decreases limit,
{
    if limit <= 0 {
        0
    } else {
        let before: int = samples_taken(src_len, limit - 1, num_channels, ch, bytes_per_sample);
        if before == limit - 1 && holds_sample(
            src_len,
            limit - 1,
            num_channels,
            ch,
            bytes_per_sample,
        ) {
            limit
        } else {
            before
        }
    }
}

/// The two planes of a channel after sample `i` of `bytes_per_sample` bytes
/// was put in its place. The place is `i * bytes_per_sample` bytes into the
/// first plane; a sample that does not lie within the first plane goes to
/// the second, as far behind its start as the place is behind the end of the
/// first; a sample that lies within neither is left out.
pub open spec fn placed(planes: (Seq<u8>, Seq<u8>), i: int, sample: Seq<u8>) -> (Seq<u8>, Seq<u8>) {
    let at: int = i * sample.len();
    let wrapped: int = if at >= planes.0.len() {
        at - planes.0.len()
    } else {
        0
    };
    if at + sample.len() <= planes.0.len() {
        (overwritten(planes.0, at, sample), planes.1)
    } else if at < planes.0.len() + planes.1.len() && wrapped + sample.len() <= planes.1.len() {
        (planes.0, overwritten(planes.1, wrapped, sample))
    } else {
        planes
    }
}

/// The two planes of channel `ch` after the samples of its first `n` frames
/// were taken from the interleaved source and put in their places.
pub open spec fn channel_written(
    planes: (Seq<u8>, Seq<u8>),
    src: Seq<u8>,
    n: int,
    num_channels: int,
    ch: int,
    bytes_per_sample: int,
) -> (Seq<u8>, Seq<u8>)
    decreases n,
{
    if n <= 0 {
        planes
    } else {
        let at: int = source_offset(n - 1, num_channels, ch, bytes_per_sample);
        placed(
            channel_written(planes, src, n - 1, num_channels, ch, bytes_per_sample),
            n - 1,
            src.subrange(at, at + bytes_per_sample),
        )
    }
}

proof fn lemma_placed_keeps_lengths(planes: (Seq<u8>, Seq<u8>), i: int, sample: Seq<u8>)
    requires
        0 <= i,
    ensures
        placed(planes, i, sample).0.len() == planes.0.len(),
        placed(planes, i, sample).1.len() == planes.1.len(),
{
    assert(0 <= i * sample.len()) by (nonlinear_arith)
        requires
            0 <= i,
            0 <= sample.len(),
    ;
}

/// Once the source does not hold a frame's sample, no later frame is taken.
proof fn lemma_samples_taken_stops(
    src_len: int,
    stop: int,
    limit: int,
    num_channels: int,
    ch: int,
    bytes_per_sample: int,
)
    requires
        0 <= stop <= limit,
        samples_taken(src_len, stop, num_channels, ch, bytes_per_sample) == stop,
        stop < limit ==> !holds_sample(src_len, stop, num_channels, ch, bytes_per_sample),
    ensures
        samples_taken(src_len, limit, num_channels, ch, bytes_per_sample) == stop,
    decreases limit - stop,
{
    if stop < limit {
        lemma_samples_taken_stops(src_len, stop, limit - 1, num_channels, ch, bytes_per_sample);
    }
}

proof fn lemma_next_offsets(i: int, num_channels: int, ch: int, bytes_per_sample: int)
    by (nonlinear_arith)
    requires
        0 <= i,
        0 <= ch < num_channels,
        0 <= bytes_per_sample,
    ensures
        source_offset(i + 1, num_channels, ch, bytes_per_sample) == source_offset(
            i,
            num_channels,
            ch,
            bytes_per_sample,
        ) + num_channels * bytes_per_sample,
        (i + 1) * bytes_per_sample == i * bytes_per_sample + bytes_per_sample,
        i * bytes_per_sample <= source_offset(i, num_channels, ch, bytes_per_sample),
        0 <= i * bytes_per_sample,
        source_offset(0, num_channels, ch, bytes_per_sample) == ch * bytes_per_sample,
        0 <= ch * bytes_per_sample,
        0 <= num_channels * bytes_per_sample,
{
}

/// Takes the samples of channel `ch` from the interleaved source
/// `src_chunk`, frame by frame, and puts them into the two planes of that
/// channel. It stops after `samples_per_channel` frames, or before the first
/// frame whose sample the source does not hold. Returns the number of
/// samples taken.
#[verifier::rlimit(40)]
pub fn write_channel(
    bytes_per_sample: usize,
    num_channels: usize,
    ch: usize,
    plane1: &mut [u8],
    plane2: &mut [u8],
    samples_per_channel: usize,
    src_chunk: &[u8],
) -> (taken: usize)
    requires
        ch < num_channels,
    ensures
        taken == samples_taken(
            src_chunk@.len() as int,
            samples_per_channel as int,
            num_channels as int,
            ch as int,
            bytes_per_sample as int,
        ),
        (final(plane1)@, final(plane2)@) == channel_written(
            (old(plane1)@, old(plane2)@),
            src_chunk@,
            taken as int,
            num_channels as int,
            ch as int,
            bytes_per_sample as int,
        ),
{
    let src_len: usize = src_chunk.len();
    let len1: usize = plane1.len();
    let len2: usize = plane2.len();
    let ghost planes: (Seq<u8>, Seq<u8>) = (plane1@, plane2@);
    let stride: Option<usize> = num_channels.checked_mul(bytes_per_sample);
    let mut sample_offset: Option<usize> = ch.checked_mul(bytes_per_sample);
    let mut written: usize = 0;
    let mut i: usize = 0;
    proof {
        lemma_next_offsets(0, num_channels as int, ch as int, bytes_per_sample as int);
    }
    while i < samples_per_channel
        invariant
            ch < num_channels,
            i <= samples_per_channel,
            src_len == src_chunk@.len(),
            len1 == plane1@.len(),
            len2 == plane2@.len(),
            planes == (old(plane1)@, old(plane2)@),
            stride == if num_channels * bytes_per_sample > usize::MAX {
                None::<usize>
            } else {
                Some((num_channels * bytes_per_sample) as usize)
            },
            sample_offset == if source_offset(
                i as int,
                num_channels as int,
                ch as int,
                bytes_per_sample as int,
            ) > usize::MAX {
                None::<usize>
            } else {
                Some(
                    source_offset(
                        i as int,
                        num_channels as int,
                        ch as int,
                        bytes_per_sample as int,
                    ) as usize,
                )
            },
            written == i * bytes_per_sample,
            samples_taken(
                src_len as int,
                i as int,
                num_channels as int,
                ch as int,
                bytes_per_sample as int,
            ) == i,
            (plane1@, plane2@) == channel_written(
                planes,
                src_chunk@,
                i as int,
                num_channels as int,
                ch as int,
                bytes_per_sample as int,
            ),
        ensures
            i <= samples_per_channel,
            samples_taken(
                src_len as int,
                samples_per_channel as int,
                num_channels as int,
                ch as int,
                bytes_per_sample as int,
            ) == i,
            (plane1@, plane2@) == channel_written(
                planes,
                src_chunk@,
                i as int,
                num_channels as int,
                ch as int,
                bytes_per_sample as int,
            ),
        decreases samples_per_channel - i,
    {
        proof {
            lemma_next_offsets(i as int, num_channels as int, ch as int, bytes_per_sample as int);
        }
        let start: usize = match sample_offset {
            Some(start) => start,
            None => usize::MAX,
        };
        let held: bool = sample_offset.is_some() && match start.checked_add(bytes_per_sample) {
            Some(end) => end <= src_len,
            None => false,
        };
        if !held {
            proof {
                lemma_samples_taken_stops(
                    src_len as int,
                    i as int,
                    samples_per_channel as int,
                    num_channels as int,
                    ch as int,
                    bytes_per_sample as int,
                );
            }
            break;
        }
        let ghost sample: Seq<u8> = src_chunk@.subrange(start as int, start + bytes_per_sample);
        let ghost before: (Seq<u8>, Seq<u8>) = (plane1@, plane2@);
        if does_sample_fit_in_plane(bytes_per_sample, plane1, written) {
            write_sample(bytes_per_sample, src_chunk, plane1, written, start);
        } else if (written as u128) < (len1 as u128) + (len2 as u128) {
            let plane2_offset: usize = written.saturating_sub(len1);
            if does_sample_fit_in_plane(bytes_per_sample, plane2, plane2_offset) {
                write_sample(bytes_per_sample, src_chunk, plane2, plane2_offset, start);
            }
        }
        proof {
            assert((plane1@, plane2@) == placed(before, i as int, sample));
            lemma_placed_keeps_lengths(before, i as int, sample);
        }
        written = written + bytes_per_sample;
        sample_offset = match stride {
            Some(step) => start.checked_add(step),
            None => None,
        };
        i += 1;
    }
    i
}

/// A sample is never split: putting one in its place changes one plane at most,
/// and the plane that changed holds all of its bytes in a row.
pub proof fn lemma_sample_lies_in_one_plane(planes: (Seq<u8>, Seq<u8>), i: int, sample: Seq<u8>)
    requires
        0 <= i,
    ensures
        ({
            let after: (Seq<u8>, Seq<u8>) = placed(planes, i, sample);
            let at: int = i * sample.len();
            let wrapped: int = if at >= planes.0.len() {
                at - planes.0.len()
            } else {
                0
            };
            ||| after == planes
            ||| {
                &&& after.1 == planes.1
                &&& 0 <= at
                &&& at + sample.len() <= after.0.len()
                &&& after.0.subrange(at, at + sample.len()) == sample
            }
            ||| {
                &&& after.0 == planes.0
                &&& wrapped + sample.len() <= after.1.len()
                &&& after.1.subrange(wrapped, wrapped + sample.len()) == sample
            }
        }),
{
    let after: (Seq<u8>, Seq<u8>) = placed(planes, i, sample);
    let at: int = i * sample.len();
    let wrapped: int = if at >= planes.0.len() {
        at - planes.0.len()
    } else {
        0
    };
    assert(0 <= at) by (nonlinear_arith)
        requires
            at == i * sample.len(),
            0 <= i,
            0 <= sample.len(),
    ;
    if at + sample.len() <= planes.0.len() {
        assert(after.0.subrange(at, at + sample.len()) =~= sample);
    } else if at < planes.0.len() + planes.1.len() && wrapped + sample.len() <= planes.1.len() {
        assert(after.1.subrange(wrapped, wrapped + sample.len()) =~= sample);
    }
}

proof fn lemma_aligned_place(at: int, len1: int, bytes_per_sample: int, i: int)
    by (nonlinear_arith)
    requires
        0 < bytes_per_sample,
        0 <= i,
        0 <= len1,
        len1 % bytes_per_sample == 0,
        at == i * bytes_per_sample,
        at + bytes_per_sample > len1,
    ensures
        at >= len1,
{
    let m: int = len1 / bytes_per_sample;
    assert(len1 == m * bytes_per_sample);
    assert(i >= m);
}

/// In a window whose first plane ends between two samples and which has
/// room for `n` samples, a channel stands after the writing as it stood in
/// the source: the sample of frame `i` fills the bytes from
/// `i * bytes_per_sample` on, counted through the first plane and on into the
/// second, and no byte behind the last sample has changed.
#[verifier::rlimit(40)]
pub proof fn lemma_aligned_window_holds_channel(
    planes: (Seq<u8>, Seq<u8>),
    src: Seq<u8>,
    n: int,
    num_channels: int,
    ch: int,
    bytes_per_sample: int,
)
    requires
        0 <= n,
        0 <= ch < num_channels,
        0 < bytes_per_sample,
        planes.0.len() % (bytes_per_sample as nat) == 0,
        n * bytes_per_sample <= planes.0.len() + planes.1.len(),
        n > 0 ==> holds_sample(src.len() as int, n - 1, num_channels, ch, bytes_per_sample),
    ensures
        ({
            let after: (Seq<u8>, Seq<u8>) = channel_written(
                planes,
                src,
                n,
                num_channels,
                ch,
                bytes_per_sample,
            );
            &&& after.0.len() == planes.0.len()
            &&& after.1.len() == planes.1.len()
            &&& forall|i: int, k: int|
                0 <= i < n && 0 <= k < bytes_per_sample ==> (after.0 + after.1)[i * bytes_per_sample
                    + k] == #[trigger] src[source_offset(i, num_channels, ch, bytes_per_sample) + k]
            &&& forall|j: int|
                n * bytes_per_sample <= j < planes.0.len() + planes.1.len() ==> (after.0
                    + after.1)[j] == (planes.0 + planes.1)[j]
        }),
    decreases n,
{
    if n > 0 {
        let i: int = n - 1;
        lemma_next_offsets(i, num_channels, ch, bytes_per_sample);
        if i > 0 {
            lemma_next_offsets(i - 1, num_channels, ch, bytes_per_sample);
        }
        lemma_aligned_window_holds_channel(planes, src, i, num_channels, ch, bytes_per_sample);
        let before: (Seq<u8>, Seq<u8>) = channel_written(
            planes,
            src,
            i,
            num_channels,
            ch,
            bytes_per_sample,
        );
        let from: int = source_offset(i, num_channels, ch, bytes_per_sample);
        let sample: Seq<u8> = src.subrange(from, from + bytes_per_sample);
        let after: (Seq<u8>, Seq<u8>) = placed(before, i, sample);
        let at: int = i * bytes_per_sample;
        assert(after == channel_written(planes, src, n, num_channels, ch, bytes_per_sample));
        assert(0 <= from);
        if at + bytes_per_sample > before.0.len() {
            lemma_aligned_place(at, before.0.len() as int, bytes_per_sample, i);
        }
        assert forall|f: int, k: int| 0 <= f < n && 0 <= k < bytes_per_sample implies (after.0
            + after.1)[f * bytes_per_sample + k] == #[trigger] src[source_offset(
            f,
            num_channels,
            ch,
            bytes_per_sample,
        ) + k] by {
            if f < i {
                assert(f * bytes_per_sample + k < at) by (nonlinear_arith)
                    requires
                        0 <= f < i,
                        0 <= k < bytes_per_sample,
                        at == i * bytes_per_sample,
                ;
                assert(0 <= f * bytes_per_sample + k) by (nonlinear_arith)
                    requires
                        0 <= f,
                        0 <= k,
                        0 < bytes_per_sample,
                ;
                assert((after.0 + after.1)[f * bytes_per_sample + k] == (before.0 + before.1)[f
                    * bytes_per_sample + k]);
            } else {
                assert(sample[k] == src[from + k]);
            }
        }
        assert forall|j: int| n * bytes_per_sample <= j < planes.0.len() + planes.1.len() implies (
        after.0 + after.1)[j] == (planes.0 + planes.1)[j] by {
            assert((after.0 + after.1)[j] == (before.0 + before.1)[j]);
        }
    }
}

/// The planes of channel `ch` of a window.
pub open spec fn planes_of(access: RingWindow, ch: int) -> (Seq<u8>, Seq<u8>) {
    (access.channels@[ch].plane1@, access.channels@[ch].plane2@)
}

/// Writes the frames of an interleaved source into a window, each channel to
/// its own planes. Fails, and writes nothing, where the window has fewer
/// than `num_channels` channels.
#[verifier::rlimit(40)]
pub fn write_samples_per_channel(
    bytes_per_sample: usize,
    num_channels: usize,
    access: &mut RingWindow,
    samples_per_channel: usize,
    src_chunk: &[u8],
) -> (r: Result<(), SessionError>)
    ensures
        final(access).channels@.len() == old(access).channels@.len(),
        match r {
            Ok(_) => {
                &&& num_channels <= old(access).channels@.len()
                &&& forall|ch: int|
                    0 <= ch < num_channels ==> #[trigger] planes_of(*final(access), ch)
                        == channel_written(
                        planes_of(*old(access), ch),
                        src_chunk@,
                        samples_taken(
                            src_chunk@.len() as int,
                            samples_per_channel as int,
                            num_channels as int,
                            ch,
                            bytes_per_sample as int,
                        ),
                        num_channels as int,
                        ch,
                        bytes_per_sample as int,
                    )
                &&& forall|ch: int|
                    num_channels <= ch < old(access).channels@.len() ==> final(access).channels@[ch]
                        == old(access).channels@[ch]
            },
            Err(e) => {
                &&& e == SessionError::EngineUnavailable
                &&& num_channels > old(access).channels@.len()
                &&& *final(access) == *old(access)
            },
        },
{
    if access.channels.len() < num_channels {
        return Err(SessionError::EngineUnavailable);
    }
    let mut ch: usize = 0;
    while ch < num_channels
        invariant
            ch <= num_channels,
            num_channels <= old(access).channels@.len(),
            access.channels@.len() == old(access).channels@.len(),
            forall|c: int|
                0 <= c < ch ==> #[trigger] planes_of(*access, c) == channel_written(
                    planes_of(*old(access), c),
                    src_chunk@,
                    samples_taken(
                        src_chunk@.len() as int,
                        samples_per_channel as int,
                        num_channels as int,
                        c,
                        bytes_per_sample as int,
                    ),
                    num_channels as int,
                    c,
                    bytes_per_sample as int,
                ),
            forall|c: int|
                ch <= c < access.channels@.len() ==> access.channels@[c] == old(access).channels@[c],
        decreases num_channels - ch,
    {
        let ghost before: RingWindow = *access;
        let channel: &mut ChannelPlanes = &mut access.channels[ch];
        write_channel(
            bytes_per_sample,
            num_channels,
            ch,
            channel.plane1.as_mut_slice(),
            channel.plane2.as_mut_slice(),
            samples_per_channel,
            src_chunk,
        );
        proof {
            assert(planes_of(before, ch as int) == planes_of(*old(access), ch as int));
            assert forall|c: int| 0 <= c < ch implies #[trigger] planes_of(*access, c)
                == planes_of(before, c) by {}
        }
        ch += 1;
    }
    Ok(())
}

/// One window's worth of a buffer: which frames of the source go where.
#[derive(Clone, Copy, Debug, PartialEq, Eq, Structural)]
pub struct Chunk {
    /// The index of the flow at which the window opens.
    pub index: u64,
    /// The number of frames.
    pub samples: usize,
    /// The frame of the source with which the chunk starts.
    pub src_offset_samples: usize,
    /// The number of bytes that the chunk takes from the source.
    pub bytes: usize,
}

/// How a buffer is written: its chunks in order, and the index at which the
/// buffer after it starts.
#[derive(Clone, Debug, PartialEq, Eq)]
pub struct WritePlan {
    pub bytes_per_sample: usize,
    pub num_channels: usize,
    pub chunks: Vec<Chunk>,
    pub next_write_index: u64,
}

/// The frames in all the chunks together.
pub open spec fn total_samples(chunks: Seq<Chunk>) -> int
    decreases chunks.len(),
{
    if chunks.len() == 0 {
        0
    } else {
        total_samples(chunks.drop_last()) + chunks.last().samples
    }
}

/// An index of the flow after `frames` more frames. The index wraps at 64 bits.
#[verifier::opaque]
pub open spec fn index_after(start: u64, frames: int) -> u64 {
    ((start + frames) % 0x1_0000_0000_0000_0000) as u64
}

/// No frames on, the index is the same.
pub proof fn lemma_index_after_none(start: u64)
    ensures
        index_after(start, 0) == start,
{
    reveal(index_after);
}

/// Going on by some frames and then by some more is going on by all of them
/// at once.
pub proof fn lemma_index_after_more(start: u64, frames: int, more: int)
    requires
        0 <= frames,
        0 <= more,
    ensures
        index_after(index_after(start, frames), more) == index_after(start, frames + more),
{
    reveal(index_after);
}

/// Going on by fewer frames than 64 bits count is an addition that wraps.
pub proof fn lemma_index_after_wraps(start: u64, frames: u64)
    ensures
        index_after(start, frames as int) == start.wrapping_add(frames),
{
    reveal(index_after);
}

/// Whether the chunks cut `total` frames into windows of at most `max_chunk`
/// frames: each chunk starts in the source where the one before it ended and
/// in the flow as many frames after `start`, and each takes as many of the
/// frames that are left as a window may hold. There are no more chunks than
/// that takes.
pub open spec fn chunks_cover(
    chunks: Seq<Chunk>,
    start: u64,
    total: int,
    max_chunk: int,
    frame_bytes: int,
) -> bool {
    &&& total_samples(chunks) == total
    &&& if total == 0 {
        chunks.len() == 0
    } else {
        (chunks.len() - 1) * max_chunk < total <= chunks.len() * max_chunk
    }
    &&& forall|k: int|
        0 <= k < chunks.len() ==> {
            let chunk: Chunk = #[trigger] chunks[k];
            let before: int = total_samples(chunks.take(k));
            &&& chunk.src_offset_samples == before
            &&& chunk.index == index_after(start, before)
            &&& 0 < chunk.samples <= max_chunk
            &&& chunk.samples == if total - before <= max_chunk {
                total - before
            } else {
                max_chunk
            }
            &&& chunk.bytes == chunk.samples * frame_bytes
        }
}

/// The number of frames in one window and of bytes that they take from the
/// source: as many of the frames that remain as a window may hold.
pub fn compute_samples_per_channel(
    bytes_per_sample: usize,
    max_chunk: usize,
    num_channels: usize,
    remaining: usize,
) -> (r: Option<(usize, usize)>)
    ensures
        match r {
            Some((chunk_samples, chunk_bytes)) => {
                &&& chunk_samples == if remaining <= max_chunk {
                    remaining
                } else {
                    max_chunk
                }
                &&& chunk_bytes == chunk_samples * (num_channels * bytes_per_sample)
            },
            None => (if remaining <= max_chunk {
                remaining
            } else {
                max_chunk
            }) * (num_channels * bytes_per_sample) > usize::MAX,
        },
{
    let chunk_samples: usize = if remaining <= max_chunk {
        remaining
    } else {
        max_chunk
    };
    match num_channels.checked_mul(bytes_per_sample) {
        Some(frame_bytes) => match chunk_samples.checked_mul(frame_bytes) {
            Some(chunk_bytes) => Some((chunk_samples, chunk_bytes)),
            None => None,
        },
        None => {
            if chunk_samples == 0 {
                assert(0 * (num_channels * bytes_per_sample) == 0) by (nonlinear_arith);
                Some((0, 0))
            } else {
                assert(chunk_samples * (num_channels * bytes_per_sample) > usize::MAX)
                    by (nonlinear_arith)
                    requires
                        chunk_samples >= 1,
                        num_channels * bytes_per_sample > usize::MAX,
                ;
                None
            }
        },
    }
}

proof fn lemma_total_samples_push(chunks: Seq<Chunk>, chunk: Chunk)
    ensures
        total_samples(chunks.push(chunk)) == total_samples(chunks) + chunk.samples,
{
    assert(chunks.push(chunk).drop_last() =~= chunks);
}

/// The bytes of one sample of the session's flow.
pub open spec fn sample_bytes(audio: AudioState) -> int {
    audio.flow_def.bit_depth as int / 8
}

/// The bytes of one frame of the session's flow: a sample for each channel.
pub open spec fn frame_bytes(audio: AudioState) -> int {
    audio.flow_def.channel_count * sample_bytes(audio)
}

/// Whether the session can write samples: it is bound to a flow of samples
/// whose frames have at least one byte.
pub open spec fn can_write_audio(state: State) -> bool {
    &&& state.audio is Some
    &&& state.flow matches Some(FlowConfigInfo::Continuous { .. })
    &&& state.audio.unwrap().flow_def.channel_count > 0
    &&& sample_bytes(state.audio.unwrap()) > 0
}

/// The number of whole frames in a buffer of `src_len` bytes.
pub open spec fn frames_in(state: State, src_len: int) -> int {
    src_len / frame_bytes(state.audio.unwrap())
}

/// The largest number of frames in one window: half the ring.
pub open spec fn max_chunk_of(state: State) -> int {
    match state.flow {
        Some(FlowConfigInfo::Continuous { buffer_length, .. }) => buffer_length as int / 2,
        _ => 0,
    }
}

/// The index at which the buffer starts: where the buffer before it ended,
/// or for the first buffer the flow's current index.
pub open spec fn write_start(state: State, current_index: u64) -> u64 {
    match state.audio.unwrap().next_write_index {
        Some(index) => index,
        None => current_index,
    }
}

proof fn lemma_frames_fit(src_len: int, frame: int, total: int, part: int)
    by (nonlinear_arith)
    requires
        0 < frame,
        0 <= src_len,
        total == src_len / frame,
        0 <= part <= total,
    ensures
        part * frame <= src_len,
        0 <= total <= src_len,
{
}

/// Plans the writing of one buffer of `src_len` bytes of interleaved
/// samples: cuts its frames into chunks of at most half the ring, and
/// remembers where the buffer starts. `current_index` is the flow's current
/// index. The program opens a window for each chunk in turn, fills it with
/// `write_samples_per_channel` from the part of the source that
/// `compute_chunk` gives, and commits it; after the last it calls
/// `audio_written`.
#[verifier::rlimit(40)]
pub fn audio(state: &mut State, src_len: usize, current_index: u64) -> (r: Result<
    WritePlan,
    SessionError,
>)
    ensures
        match r {
            Ok(plan) => {
                &&& can_write_audio(*old(state))
                &&& plan.bytes_per_sample == sample_bytes(old(state).audio.unwrap())
                &&& plan.num_channels == old(state).audio.unwrap().flow_def.channel_count
                &&& chunks_cover(
                    plan.chunks@,
                    write_start(*old(state), current_index),
                    frames_in(*old(state), src_len as int),
                    max_chunk_of(*old(state)),
                    frame_bytes(old(state).audio.unwrap()),
                )
                &&& plan.next_write_index == index_after(
                    write_start(*old(state), current_index),
                    frames_in(*old(state), src_len as int),
                )
                &&& final(state).flow == old(state).flow
                &&& final(state).video == old(state).video
                &&& final(state).initial_time == old(state).initial_time
                &&& final(state).audio == Some(
                    AudioState {
                        batch_size: frames_in(*old(state), src_len as int) as usize,
                        next_write_index: Some(write_start(*old(state), current_index)),
                        ..old(state).audio.unwrap()
                    },
                )
            },
            Err(e) => {
                &&& *final(state) == *old(state)
                &&& if !can_write_audio(*old(state)) {
                    e == SessionError::StateError
                } else {
                    &&& e == SessionError::EngineUnavailable
                    &&& frames_in(*old(state), src_len as int) > 0
                    &&& max_chunk_of(*old(state)) == 0
                }
            },
        },
{
    let buffer_length: u32 = match state.flow {
        Some(FlowConfigInfo::Continuous { buffer_length, .. }) => buffer_length,
        _ => {
            return Err(SessionError::StateError);
        },
    };
    let ghost before: State = *state;
    let audio_state: &mut AudioState = match &mut state.audio {
        Some(audio_state) => audio_state,
        None => {
            return Err(SessionError::StateError);
        },
    };
    let bytes_per_sample: usize = (audio_state.flow_def.bit_depth / 8) as usize;
    if audio_state.flow_def.channel_count <= 0 || bytes_per_sample == 0 {
        return Err(SessionError::StateError);
    }
    let num_channels: usize = audio_state.flow_def.channel_count as usize;
    let ghost frame: int = num_channels * bytes_per_sample;
    assert(frame == frame_bytes(before.audio.unwrap()));
    assert(frame > 0) by (nonlinear_arith)
        requires
            frame == num_channels * bytes_per_sample,
            num_channels > 0,
            bytes_per_sample > 0,
    ;
    let samples_per_buffer: usize = match num_channels.checked_mul(bytes_per_sample) {
        Some(frame_bytes) => src_len / frame_bytes,
        None => {
            assert(src_len as int / frame == 0) by (nonlinear_arith)
                requires
                    0 <= src_len < frame,
            ;
            0
        },
    };
    let max_chunk: usize = (buffer_length / 2) as usize;
    if samples_per_buffer > 0 && max_chunk == 0 {
        return Err(SessionError::EngineUnavailable);
    }
    let start: u64 = match audio_state.next_write_index {
        Some(index) => index,
        None => current_index,
    };
    audio_state.batch_size = samples_per_buffer;
    audio_state.next_write_index = Some(start);

    let mut chunks: Vec<Chunk> = Vec::new();
    let mut write_index: u64 = start;
    let mut remaining: usize = samples_per_buffer;
    let mut src_offset_samples: usize = 0;
    proof {
        lemma_frames_fit(src_len as int, frame, samples_per_buffer as int, 0);
        lemma_index_after_none(start);
        assert(0 * max_chunk == 0) by (nonlinear_arith);
    }
    while remaining > 0
        invariant
            frame == num_channels * bytes_per_sample,
            frame > 0,
            samples_per_buffer == src_len as int / frame,
            max_chunk > 0 || samples_per_buffer == 0,
            src_offset_samples + remaining == samples_per_buffer,
            remaining > 0 ==> src_offset_samples == chunks@.len() * max_chunk,
            remaining == 0 && samples_per_buffer > 0 ==> (chunks@.len() - 1) * max_chunk
                < samples_per_buffer <= chunks@.len() * max_chunk,
            samples_per_buffer == 0 ==> chunks@.len() == 0,
            write_index == index_after(start, src_offset_samples as int),
            total_samples(chunks@) == src_offset_samples,
            forall|k: int|
                0 <= k < chunks@.len() ==> {
                    let chunk: Chunk = #[trigger] chunks@[k];
                    let before: int = total_samples(chunks@.take(k));
                    &&& chunk.src_offset_samples == before
                    &&& chunk.index == index_after(start, before)
                    &&& 0 < chunk.samples <= max_chunk
                    &&& chunk.samples == if samples_per_buffer - before <= max_chunk {
                        samples_per_buffer - before
                    } else {
                        max_chunk as int
                    }
                    &&& chunk.bytes == chunk.samples * frame
                },
        decreases remaining,
    {
        let ghost sofar: Seq<Chunk> = chunks@;
        let chunk_samples: usize = if remaining <= max_chunk {
            remaining
        } else {
            max_chunk
        };
        proof {
            lemma_frames_fit(src_len as int, frame, samples_per_buffer as int, chunk_samples as int);
        }
        let (chunk_samples, chunk_bytes): (usize, usize) = match compute_samples_per_channel(
            bytes_per_sample,
            max_chunk,
            num_channels,
            remaining,
        ) {
            Some(sizes) => sizes,
            None => (chunk_samples, 0),
        };
        let chunk: Chunk = Chunk {
            index: write_index,
            samples: chunk_samples,
            src_offset_samples,
            bytes: chunk_bytes,
        };
        chunks.push(chunk);
        proof {
            lemma_total_samples_push(sofar, chunk);
            assert(chunks@.take(sofar.len() as int) =~= sofar);
            assert forall|k: int| 0 <= k < sofar.len() implies chunks@.take(k) == sofar.take(k) by {
                assert(chunks@.take(k) =~= sofar.take(k));
            }
            lemma_index_after_wraps(write_index, chunk_samples as u64);
            lemma_index_after_more(start, src_offset_samples as int, chunk_samples as int);
            assert((sofar.len() + 1) * max_chunk == sofar.len() * max_chunk + max_chunk)
                by (nonlinear_arith);
        }
        write_index = write_index.wrapping_add(chunk_samples as u64);
        src_offset_samples = src_offset_samples + chunk_samples;
        remaining = remaining - chunk_samples;
    }
    Ok(WritePlan { bytes_per_sample, num_channels, chunks, next_write_index: write_index })
}

/// Remembers, after the last chunk of a buffer was committed, where the
/// buffer after it starts. A session that does not write samples is left as
/// it is.
pub fn audio_written(state: &mut State, plan: &WritePlan)
    ensures
        final(state).flow == old(state).flow,
        final(state).video == old(state).video,
        final(state).initial_time == old(state).initial_time,
        match old(state).audio {
            Some(audio) => final(state).audio == Some(
                AudioState { next_write_index: Some(plan.next_write_index), ..audio },
            ),
            None => final(state).audio is None,
        },
{
    match &mut state.audio {
        Some(audio_state) => {
            audio_state.next_write_index = Some(plan.next_write_index);
        },
        None => {},
    }
}

/// The chunks of a plan leave no frame out and take none twice: the first
/// starts with the first frame of the source, each of the others where the
/// one before it ended, and the last ends with the last frame.
pub proof fn lemma_chunks_tile_the_batch(
    chunks: Seq<Chunk>,
    start: u64,
    total: int,
    max_chunk: int,
    frame_bytes: int,
)
    requires
        chunks_cover(chunks, start, total, max_chunk, frame_bytes),
    ensures
        total_samples(chunks) == total,
        chunks.len() > 0 ==> chunks[0].src_offset_samples == 0,
        chunks.len() > 0 ==> chunks.last().src_offset_samples + chunks.last().samples == total,
        forall|k: int|
            0 <= k && k + 1 < chunks.len() ==> (#[trigger] chunks[k + 1]).src_offset_samples
                == chunks[k].src_offset_samples + chunks[k].samples,
{
    assert forall|k: int| 0 <= k < chunks.len() implies total_samples(
        #[trigger] chunks.take(k + 1),
    ) == total_samples(chunks.take(k)) + chunks[k].samples by {
        assert(chunks.take(k + 1).drop_last() =~= chunks.take(k));
    }
    if chunks.len() > 0 {
        assert(chunks.take(0).len() == 0);
        let last: int = chunks.len() - 1;
        assert(chunks.take(last + 1) =~= chunks);
        assert(total_samples(chunks.take(last + 1)) == total_samples(chunks.take(last))
            + chunks[last].samples);
    }
    assert forall|k: int| 0 <= k && k + 1 < chunks.len() implies (#[trigger] chunks[k
        + 1]).src_offset_samples == chunks[k].src_offset_samples + chunks[k].samples by {
        assert(total_samples(chunks.take(k + 1)) == total_samples(chunks.take(k))
            + chunks[k].samples);
    }
}

/// Whether frame `frame` of the source lies in the chunk.
pub open spec fn in_chunk(chunk: Chunk, frame: int) -> bool {
    chunk.src_offset_samples <= frame < chunk.src_offset_samples + chunk.samples
}

proof fn lemma_chunks_follow(chunks: Seq<Chunk>, j: int, k: int)
    requires
        0 <= j < k < chunks.len(),
        forall|i: int|
            0 <= i && i + 1 < chunks.len() ==> (#[trigger] chunks[i + 1]).src_offset_samples
                == chunks[i].src_offset_samples + chunks[i].samples,
    ensures
        chunks[j].src_offset_samples + chunks[j].samples <= chunks[k].src_offset_samples,
    decreases k - j,
{
    assert(chunks[(k - 1) + 1].src_offset_samples == chunks[k - 1].src_offset_samples + chunks[k
        - 1].samples);
    if j < k - 1 {
        lemma_chunks_follow(chunks, j, k - 1);
    }
}

proof fn lemma_find_chunk(chunks: Seq<Chunk>, frame: int, k: int) -> (found: int)
    requires
        0 <= k < chunks.len(),
        0 <= frame < chunks[k].src_offset_samples + chunks[k].samples,
        chunks[0].src_offset_samples == 0,
        forall|i: int|
            0 <= i && i + 1 < chunks.len() ==> (#[trigger] chunks[i + 1]).src_offset_samples
                == chunks[i].src_offset_samples + chunks[i].samples,
    ensures
        0 <= found <= k,
        in_chunk(chunks[found], frame),
    decreases k,
{
    if frame >= chunks[k].src_offset_samples {
        k
    } else {
        assert(chunks[(k - 1) + 1].src_offset_samples == chunks[k - 1].src_offset_samples + chunks[k
            - 1].samples);
        lemma_find_chunk(chunks, frame, k - 1)
    }
}

/// Every frame of a buffer is written once: it lies in one chunk of the
/// plan and in no other, and the window of that chunk puts it at the index
/// of the flow that is as many frames behind the start of the buffer.
#[verifier::rlimit(40)]
pub proof fn lemma_every_frame_is_written_once(
    chunks: Seq<Chunk>,
    start: u64,
    total: int,
    max_chunk: int,
    frame_bytes: int,
    frame: int,
)
    requires
        chunks_cover(chunks, start, total, max_chunk, frame_bytes),
        0 <= frame < total,
    ensures
        exists|k: int| 0 <= k < chunks.len() && in_chunk(#[trigger] chunks[k], frame),
        forall|j: int, k: int|
            0 <= j < chunks.len() && 0 <= k < chunks.len() && in_chunk(#[trigger] chunks[j], frame)
                && in_chunk(#[trigger] chunks[k], frame) ==> j == k,
        forall|k: int|
            0 <= k < chunks.len() && in_chunk(#[trigger] chunks[k], frame) ==> index_after(
                chunks[k].index,
                frame - chunks[k].src_offset_samples,
            ) == index_after(start, frame),
{
    lemma_chunks_tile_the_batch(chunks, start, total, max_chunk, frame_bytes);
    assert(chunks.len() > 0) by {
        if chunks.len() == 0 {
            assert(total_samples(chunks) == 0);
        }
    }
    let found: int = lemma_find_chunk(chunks, frame, chunks.len() - 1);
    assert(in_chunk(chunks[found], frame));
    assert forall|j: int, k: int|
        0 <= j < chunks.len() && 0 <= k < chunks.len() && in_chunk(#[trigger] chunks[j], frame)
            && in_chunk(#[trigger] chunks[k], frame) implies j == k by {
        if j < k {
            lemma_chunks_follow(chunks, j, k);
        } else if k < j {
            lemma_chunks_follow(chunks, k, j);
        }
    }
    assert forall|k: int|
        0 <= k < chunks.len() && in_chunk(#[trigger] chunks[k], frame) implies index_after(
        chunks[k].index,
        frame - chunks[k].src_offset_samples,
    ) == index_after(start, frame) by {
        let before: int = total_samples(chunks.take(k));
        assert(chunks[k].src_offset_samples == before);
        assert(chunks[k].index == index_after(start, before));
        lemma_index_after_more(start, before, frame - before);
    }
}

} // verus!
