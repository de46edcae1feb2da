use vstd::prelude::*;

use crate::pixel::PixelLayout;
use crate::timing::WallTime;

verus! {

/// Pixel format that a capture session is asked to deliver.
#[derive(Clone, Copy, Debug, PartialEq, Eq, Structural)]
pub enum FrameType {
    YUVFrame,
    BGR0,
    RGB,
    BGRAFrame,
}

/// Capture configuration.
#[derive(Clone, Copy, Debug, PartialEq, Eq, Structural)]
pub struct Options {
    /// Frames per second asked of the capture session.
    pub fps: u32,
    pub show_cursor: bool,
    pub show_highlight: bool,
    pub captures_audio: bool,
    pub output_type: FrameType,
}

/// A decoded video frame in CPU memory.
#[derive(Clone, Debug)]
pub struct VideoFrame {
    pub layout: PixelLayout,
    pub display_time: WallTime,
    pub width: i32,
    pub height: i32,
    pub data: Vec<u8>,
}

/// A decoded block of audio samples; passed through untouched.
#[derive(Clone, Debug)]
pub struct AudioFrame {
    pub display_time: WallTime,
    pub channels: u16,
    pub sample_rate: u32,
    pub data: Vec<u8>,
}

/// A decoded frame from the CPU capture path.
#[derive(Clone, Debug)]
pub enum Frame {
    Video(VideoFrame),
    Audio(AudioFrame),
}

} // verus!
