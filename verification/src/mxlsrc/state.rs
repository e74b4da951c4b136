//! What a reading session remembers between two cycles.

use vstd::prelude::*;
use crate::error::SessionError;
use crate::translate::Rational;

verus! {

/// The clock anchor: a point of the flow's own time scale and the pipeline
/// running time, in nanoseconds, that stands for it. Every timestamp that the
/// session puts on a buffer is counted from `gst_time`.
#[derive(Clone, Copy, Debug, PartialEq, Eq, Structural)]
pub struct InitialTime {
    pub mxl_index: u64,
    pub gst_time: u64,
}

impl Default for InitialTime {
    fn default() -> (r: InitialTime)
        ensures
            r.mxl_index == 0,
            r.gst_time == 0,
    {
        InitialTime { mxl_index: 0, gst_time: 0 }
    }
}

/// The larger of two numbers.
pub open spec fn later(a: int, b: int) -> int {
    if a >= b {
        a
    } else {
        b
    }
}

proof fn lemma_counted_bound(counter: int, period: int)
    by (nonlinear_arith)
    requires
        0 <= counter <= u64::MAX,
        0 <= period <= u64::MAX,
    ensures
        0 <= counter * period <= u64::MAX * u64::MAX,
{
}

impl InitialTime {
    /// The timestamp that the anchor gives to the unit after `counter` units
    /// of `period` nanoseconds each, before any correction.
    pub open spec fn planned(self, counter: int, period: int) -> int {
        self.gst_time + counter * period
    }

    /// The timestamp put on that unit when the pipeline's running time is
    /// `now`: the planned one, or `now` where the plan has fallen behind it.
    pub open spec fn stamped(self, counter: int, period: int, now: int) -> int {
        later(self.planned(counter, period), now)
    }

    /// The anchor after that unit: where the plan had fallen behind, its time
    /// is moved forward by the deficit, so that the same unit would now be
    /// planned at `now` exactly.
    pub open spec fn corrected(self, counter: int, period: int, now: int) -> InitialTime {
        if self.planned(counter, period) < now {
            InitialTime {
                mxl_index: self.mxl_index,
                gst_time: (self.gst_time + (now - self.planned(counter, period))) as u64,
            }
        } else {
            self
        }
    }

    /// Computes the timestamp of the unit after `counter` units of `period`
    /// nanoseconds and corrects the anchor for forward drift. Nothing
    /// changes where the planned timestamp does not fit in 64 bits.
    pub fn stamp(&mut self, counter: u64, period: u64, now: u64) -> (r: Result<u64, SessionError>)
        ensures
            match r {
                Ok(pts) => {
                    &&& old(self).planned(counter as int, period as int) <= u64::MAX
                    &&& pts == old(self).stamped(counter as int, period as int, now as int)
                    &&& *final(self) == old(self).corrected(counter as int, period as int, now as int)
                },
                Err(e) => {
                    &&& e == SessionError::OutOfRange
                    &&& old(self).planned(counter as int, period as int) > u64::MAX
                    &&& *final(self) == *old(self)
                },
            },
    {
        proof {
            lemma_counted_bound(counter as int, period as int);
        }
        let elapsed: u128 = (counter as u128) * (period as u128);
        let planned: u128 = (self.gst_time as u128) + elapsed;
        if planned > u64::MAX as u128 {
            return Err(SessionError::OutOfRange);
        }
        let planned: u64 = planned as u64;
        if planned < now {
            self.gst_time = self.gst_time + (now - planned);
            Ok(now)
        } else {
            Ok(planned)
        }
    }
}

/// The timestamps that an anchor gives never go back, and none lies behind
/// the running time at which it was given: after a unit was stamped, the
/// corrected anchor plans that unit at its stamp, and stamps the next unit
/// no earlier.
pub proof fn lemma_stamps_never_decrease(
    anchor: InitialTime,
    counter: u64,
    period: u64,
    now: u64,
    next_now: u64,
)
    requires
        anchor.planned(counter as int, period as int) <= u64::MAX,
    ensures
        anchor.stamped(counter as int, period as int, now as int) >= now,
        anchor.corrected(counter as int, period as int, now as int).planned(
            counter as int,
            period as int,
        ) == anchor.stamped(counter as int, period as int, now as int),
        anchor.corrected(counter as int, period as int, now as int).stamped(
            counter + 1,
            period as int,
            next_now as int,
        ) >= anchor.stamped(counter as int, period as int, now as int),
{
    assert(0 <= counter * period) by (nonlinear_arith);
    assert((counter + 1) * period == counter * period + period) by (nonlinear_arith);
}

/// What the element was told to read, and where.
#[derive(Clone, Debug)]
pub struct Settings {
    pub video_flow: Option<String>,
    pub audio_flow: Option<String>,
    pub domain: String,
}

impl Default for Settings {
    fn default() -> (r: Settings)
        ensures
            r.video_flow is None,
            r.audio_flow is None,
            r.domain@.len() == 0,
    {
        Settings { video_flow: None, audio_flow: None, domain: String::new() }
    }
}

/// The state of a session that reads grains.
#[derive(Clone, Copy, Debug, PartialEq, Eq, Structural)]
pub struct VideoState {
    pub grain_rate: Rational,
    /// The grains handed to the pipeline since the anchor was set.
    pub frame_counter: u64,
    /// Whether the anchor has been set.
    pub is_initialized: bool,
}

/// The state of a session that reads sample batches.
#[derive(Clone, Copy, Debug, PartialEq, Eq, Structural)]
pub struct AudioState {
    /// The batches handed to the pipeline since the anchor was last set.
    pub batch_counter: u64,
    /// Whether the anchor has been set.
    pub is_initialized: bool,
    /// The index of the next sample to read.
    pub index: u64,
    /// Whether the next buffer has to be marked as a discontinuity.
    pub next_discont: bool,
}

/// The state of a reading session: its anchor, and the state of the one
/// kind of flow that it is bound to.
#[derive(Clone, Copy, Debug, PartialEq, Eq, Structural)]
pub struct State {
    pub initial_info: InitialTime,
    pub video: Option<VideoState>,
    pub audio: Option<AudioState>,
}

/// The session of an element: `None` before it is started and after it is stopped.
#[derive(Clone, Copy, Debug, PartialEq, Eq, Structural)]
pub struct Context {
    pub state: Option<State>,
}

impl Default for Context {
    fn default() -> (r: Context)
        ensures
            r.state is None,
    {
        Context { state: None }
    }
}

} // verus!
