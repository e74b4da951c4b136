//! The reading side: a flow comes out as pipeline buffers.

pub mod create_audio;
pub mod create_video;
pub mod imp;
pub mod mxl_helper;
pub mod state;
