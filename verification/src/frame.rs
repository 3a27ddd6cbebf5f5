//! Model of an input media frame: what the marshalling into the native image
//! struct reads of it, as plain values — dimensions and pixel format of a
//! video frame, and the pixel planes with their line sizes.

use vstd::prelude::*;

use crate::pixel::Formaton;

verus! {

/// Dimensions and pixel format of a video frame.
#[derive(Clone, Copy, Debug)]
pub struct VideoInfo {
    pub width: usize,
    pub height: usize,
    pub format: Formaton,
}

/// What kind of media a frame carries. Only the video arm holds anything the
/// image marshalling reads.
#[derive(Clone, Copy, Debug)]
pub enum MediaKind {
    Video(VideoInfo),
    Audio,
}

/// One pixel plane: its bytes and the length in bytes of one row.
#[derive(Clone, Debug)]
pub struct Plane {
    pub data: Vec<u8>,
    pub linesize: usize,
}

/// An input frame: its media kind, its pixel planes, and its presentation
/// timestamp.
#[derive(Clone, Debug)]
pub struct Frame {
    pub kind: MediaKind,
    pub planes: Vec<Plane>,
    pub pts: Option<i64>,
}

} // verus!
