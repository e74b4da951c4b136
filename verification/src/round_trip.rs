//! What is written to a window is read back unchanged.

use vstd::prelude::*;
use crate::mxlsink::render_audio::{
    channel_written,
    holds_sample,
    lemma_aligned_window_holds_channel,
    planes_of,
    source_offset,
};
use crate::mxlsrc::create_audio::{sample_byte, SAMPLE_SIZE};
use crate::ring::RingWindow;

verus! {

/// Whether the window `after` is the window `before` with the first
/// `frames` frames of the interleaved source `src` written to it, a sample
/// of `SAMPLE_SIZE` bytes for each of its channels.
pub open spec fn written_from(after: RingWindow, before: RingWindow, src: Seq<u8>, frames: int) -> bool {
    &&& after.channels@.len() == before.channels@.len()
    &&& forall|c: int|
        0 <= c < after.channels@.len() ==> #[trigger] planes_of(after, c) == channel_written(
            planes_of(before, c),
            src,
            frames,
            after.channels@.len() as int,
            c,
            SAMPLE_SIZE as int,
        )
}

/// Writing and reading lose nothing. Take a window whose first planes end
/// between two samples and which holds `frames` frames for each channel,
/// and write that many frames of an interleaved source to it. Then the
/// sample of every frame and channel of the window is the sample of that
/// frame and channel of the source: putting the window's samples back into
/// the order of the pipeline gives the source again.
#[verifier::rlimit(40)]
pub proof fn lemma_reading_restores_what_was_written(
    after: RingWindow,
    before: RingWindow,
    src: Seq<u8>,
    frames: int,
)
    requires
        0 <= frames,
        written_from(after, before, src, frames),
        before.well_formed(SAMPLE_SIZE as int),
        before.frames(SAMPLE_SIZE as int) == frames,
        forall|c: int|
            0 <= c < before.channels@.len() ==> (#[trigger] before.channels@[c]).plane1@.len()
                % SAMPLE_SIZE as nat == 0,
        frames * before.channels@.len() * SAMPLE_SIZE <= src.len(),
    ensures
        after.well_formed(SAMPLE_SIZE as int),
        after.frames(SAMPLE_SIZE as int) == frames,
        forall|f: int, c: int, k: int|
            0 <= f < frames && 0 <= c < after.channels@.len() && 0 <= k < SAMPLE_SIZE
                ==> #[trigger] sample_byte(after, f, c, k) == src[(f * after.channels@.len() + c)
                * SAMPLE_SIZE + k],
{
    let count: int = after.channels@.len() as int;
    let size: int = SAMPLE_SIZE as int;
    assert forall|c: int| 0 <= c < count implies {
        &&& (#[trigger] after.channels@[c]).bytes().len() == before.channel_bytes()
        &&& forall|f: int, k: int|
            0 <= f < frames && 0 <= k < size ==> after.channels@[c].bytes()[f * size + k]
                == #[trigger] src[source_offset(f, count, c, size) + k]
    } by {
        assert(before.channels@[c].bytes().len() == before.channel_bytes());
        assert(planes_of(after, c) == channel_written(
            planes_of(before, c),
            src,
            frames,
            count,
            c,
            size,
        ));
        if frames > 0 {
            assert(holds_sample(src.len() as int, frames - 1, count, c, size)) by (nonlinear_arith)
                requires
                    frames * count * size <= src.len(),
                    0 <= c < count,
                    size == 4,
                    frames > 0,
                    holds_sample(src.len() as int, frames - 1, count, c, size) == ((frames - 1)
                        * count * size + c * size + size <= src.len()),
            ;
        }
        lemma_aligned_window_holds_channel(planes_of(before, c), src, frames, count, c, size);
    }
    if count > 0 {
        assert(after.channels@[0].bytes().len() == before.channel_bytes());
    }
    assert forall|f: int, c: int, k: int|
        0 <= f < frames && 0 <= c < count && 0 <= k < size implies #[trigger] sample_byte(
        after,
        f,
        c,
        k,
    ) == src[(f * count + c) * size + k] by {
        assert((f * count + c) * size == source_offset(f, count, c, size)) by (nonlinear_arith)
            requires
                source_offset(f, count, c, size) == f * count * size + c * size,
        ;
        assert(after.channels@[c].bytes()[f * size + k] == src[source_offset(f, count, c, size)
            + k]);
    }
}

} // verus!
