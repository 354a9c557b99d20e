//! Video data handed through the controller.

pub mod video_frame;

pub use video_frame::{Buffer, BufferMap, VideoFrame, VideoInfo};
