//! Bridges a real-time media pipeline to a ring-buffer flow transport that is
//! addressed by a monotonically increasing index instead of wall-clock time.
//!
//! The crate holds the decisions of that bridge as functions on plain values:
//! the translation between timestamps and indices, the clock anchor and its
//! drift correction, the chunked writes into a ring window, the paced reads
//! with catch-up, and the session life cycle. Talking to the flow engine and
//! to the pipeline is left to the embedding program.

pub mod error;
pub mod flow;
pub mod flow_id;
pub mod flowdef;
pub mod mxlsink;
pub mod mxlsrc;
pub mod ring;
pub mod round_trip;
pub mod text;
pub mod translate;
