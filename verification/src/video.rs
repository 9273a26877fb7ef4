//! Frame payload model: raw byte buffers and GPU texture handles.

use vstd::prelude::*;

verus! {

/// Addressing mode of a GPU texture handle.
#[derive(Clone, Copy, Debug, PartialEq, Eq, Structural)]
pub enum TextureKind {
    /// An ordinary 2D-addressable texture.
    Normal,
    /// An opaque external sampler texture (the "external-oes" target).
    External,
}

/// Payload of one video frame.
///
/// The variant is determined solely by the capability descriptor that
/// accompanied the sample, never guessed from the payload bytes.
#[derive(Clone, Debug, PartialEq)]
pub enum FrameData {
    /// An owned copy of the first plane of a CPU-mapped sample.
    Raw(Vec<u8>),
    /// A handle to pipeline-owned device memory (the zero-copy path).
    Texture { handle: u32, kind: TextureKind },
}

/// One renderer-consumable frame: positive dimensions plus its payload.
/// Immutable once constructed.
#[derive(Clone, Debug, PartialEq)]
pub struct VideoFrame {
    pub width: i32,
    pub height: i32,
    pub data: FrameData,
}

impl VideoFrame {
    /// A frame is well formed when both dimensions are positive.
    pub open spec fn wf(&self) -> bool {
        self.width > 0 && self.height > 0
    }
}

} // verus!
