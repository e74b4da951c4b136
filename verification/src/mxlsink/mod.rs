//! The writing side: pipeline buffers go into a flow.

pub mod imp;
pub mod render_audio;
pub mod render_video;
pub mod state;
