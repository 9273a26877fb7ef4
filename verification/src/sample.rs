//! Samples and their capability descriptors, as the frame extractor sees
//! them: format metadata parsed once per sample, plus the payload in the two
//! memory domains a mapping can reach.

use vstd::prelude::*;

verus! {

/// Negotiated pixel layout of a sample.
#[derive(Clone, Copy, Debug, PartialEq, Eq, Structural)]
pub enum PixelFormat {
    /// Packed four-channel layout, one plane; the zero-copy format.
    Rgba,
    /// Packed four-channel layout, one plane; the raw-path format.
    Bgra,
    /// Planar three-plane layout.
    I420,
    /// Two-plane layout with interleaved chroma.
    Nv12,
}

impl PixelFormat {
    /// How many planes a mapped payload of this format carries.
    pub open spec fn spec_plane_count(self) -> nat {
        match self {
            PixelFormat::Rgba => 1,
            PixelFormat::Bgra => 1,
            PixelFormat::I420 => 3,
            PixelFormat::Nv12 => 2,
        }
    }

    /// Executable plane count.
    pub fn plane_count(&self) -> (n: usize)
        ensures
            n == self.spec_plane_count(),
    {
        match self {
            PixelFormat::Rgba => 1,
            PixelFormat::Bgra => 1,
            PixelFormat::I420 => 3,
            PixelFormat::Nv12 => 2,
        }
    }

    /// Whether the format is eligible for the zero-copy path: all components
    /// packed into a single plane, so one texture handle covers the frame.
    /// Multi-plane formats would need several handles per frame, which the
    /// bridge does not support.
    pub open spec fn zero_copy_eligible(self) -> bool {
        self.spec_plane_count() == 1
    }

    /// Executable eligibility test.
    pub fn is_zero_copy_eligible(&self) -> (b: bool)
        ensures
            b == self.zero_copy_eligible(),
    {
        self.plane_count() == 1
    }
}

/// The texture-target attribute of a capability descriptor.
#[derive(Clone, Copy, Debug, PartialEq, Eq, Structural)]
pub enum TextureTarget {
    /// The ordinary 2D target.
    Normal2D,
    /// The "external-oes" opaque sampler target.
    ExternalOes,
}

/// Capability descriptor attached to a sample: the outcome of format
/// negotiation, read-only and parsed once per sample.
#[derive(Clone, Copy, Debug)]
pub struct Caps {
    pub width: i32,
    pub height: i32,
    pub format: PixelFormat,
    /// The optional texture-target attribute; absent means the ordinary
    /// 2D target.
    pub texture_target: Option<TextureTarget>,
}

impl Caps {
    /// Which texture kind the descriptor selects: external only when the
    /// attribute says "external-oes".
    pub open spec fn spec_texture_kind(self) -> crate::video::TextureKind {
        if self.texture_target == Some(TextureTarget::ExternalOes) {
            crate::video::TextureKind::External
        } else {
            crate::video::TextureKind::Normal
        }
    }

    /// Executable texture-kind selection.
    pub fn texture_kind(&self) -> (k: crate::video::TextureKind)
        ensures
            k == self.spec_texture_kind(),
    {
        match self.texture_target {
            Some(TextureTarget::ExternalOes) => crate::video::TextureKind::External,
            _ => crate::video::TextureKind::Normal,
        }
    }
}

/// A sample's payload as the two mappings expose it.  `None` models a
/// mapping that fails in that memory domain.
#[derive(Clone, Debug)]
pub struct Payload {
    /// Texture handles per plane under a GPU-read mapping.
    pub gpu_planes: Option<Vec<u32>>,
    /// Plane bytes under a CPU-read mapping.
    pub cpu_planes: Option<Vec<Vec<u8>>>,
}

/// One unit of decoded media: payload plus capability descriptor, either of
/// which a malformed sample may lack.
#[derive(Clone, Debug)]
pub struct Sample {
    pub caps: Option<Caps>,
    pub payload: Option<Payload>,
}

} // verus!
