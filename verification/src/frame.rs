//! Frame extraction: from one sample to one renderer-consumable frame.
//!
//! Extraction is a pure function of the sample plus the active path.  On the
//! zero-copy path the payload is mapped for GPU reading and the texture
//! handle bound to plane 0 becomes the frame; on the raw path the payload is
//! mapped for CPU reading and plane 0 is copied verbatim into an owned
//! buffer.

use vstd::prelude::*;
use crate::error::RenderError;
use crate::sample::{Sample, TextureTarget};
use crate::video::{FrameData, TextureKind, VideoFrame};

verus! {

/// What zero-copy extraction returns for a sample, exactly.
///
/// A sample lacking descriptor or payload, with non-positive dimensions, or
/// whose GPU-read mapping fails (no mapping, or no plane 0) is malformed.
/// A mappable sample whose format is not a single-plane packed layout is
/// unsupported.  Otherwise the frame carries the descriptor's dimensions and
/// the texture handle bound to plane 0, tagged external exactly when the
/// descriptor's texture-target says so.
pub open spec fn spec_gpu_frame(s: Sample) -> Result<VideoFrame, RenderError> {
    if s.caps is None || s.payload is None {
        Err(RenderError::MalformedSample)
    } else {
        let c = s.caps.unwrap();
        let p = s.payload.unwrap();
        if c.width <= 0 || c.height <= 0 {
            Err(RenderError::MalformedSample)
        } else if p.gpu_planes is None || p.gpu_planes.unwrap()@.len() == 0 {
            Err(RenderError::MalformedSample)
        } else if !c.format.zero_copy_eligible() {
            Err(RenderError::UnsupportedFormat)
        } else {
            Ok(
                VideoFrame {
                    width: c.width,
                    height: c.height,
                    data: FrameData::Texture {
                        handle: p.gpu_planes.unwrap()@[0],
                        kind: c.spec_texture_kind(),
                    },
                },
            )
        }
    }
}

/// The error raw-copy extraction returns, or `None` when success is owed.
/// The raw path accepts every format; only a missing descriptor or payload,
/// non-positive dimensions, or a failing CPU-read mapping reject a sample.
pub open spec fn spec_cpu_frame_err(s: Sample) -> Option<RenderError> {
    if s.caps is None || s.payload is None {
        Some(RenderError::MalformedSample)
    } else {
        let c = s.caps.unwrap();
        let p = s.payload.unwrap();
        if c.width <= 0 || c.height <= 0 {
            Some(RenderError::MalformedSample)
        } else if p.cpu_planes is None || p.cpu_planes.unwrap()@.len() == 0 {
            Some(RenderError::MalformedSample)
        } else {
            None
        }
    }
}

/// Copies a byte buffer verbatim.
fn copy_bytes(src: &Vec<u8>) -> (r: Vec<u8>)
    ensures
        r@ == src@,
{
    let mut out: Vec<u8> = Vec::new();
    let n = src.len();
    for i in 0..n
        invariant
            n == src@.len(),
            out@ == src@.subrange(0, i as int),
    {
        out.push(src[i]);
        assert(out@ =~= src@.subrange(0, i + 1));
    }
    assert(out@ =~= src@);
    out
}

/// Zero-copy extraction: maps the payload for GPU reading and wraps the
/// plane-0 texture handle.  Returns exactly what [`spec_gpu_frame`] states.
pub fn extract_gpu_frame(s: &Sample) -> (r: Result<VideoFrame, RenderError>)
    ensures
        r == spec_gpu_frame(*s),
{
    let c = match &s.caps {
        Some(c) => c,
        None => {
            return Err(RenderError::MalformedSample);
        },
    };
    let p = match &s.payload {
        Some(p) => p,
        None => {
            return Err(RenderError::MalformedSample);
        },
    };
    if c.width <= 0 || c.height <= 0 {
        return Err(RenderError::MalformedSample);
    }
    let planes = match &p.gpu_planes {
        Some(g) => g,
        None => {
            return Err(RenderError::MalformedSample);
        },
    };
    if planes.len() == 0 {
        return Err(RenderError::MalformedSample);
    }
    if !c.format.is_zero_copy_eligible() {
        return Err(RenderError::UnsupportedFormat);
    }
    let handle = planes[0];
    Ok(
        VideoFrame {
            width: c.width,
            height: c.height,
            data: FrameData::Texture { handle, kind: c.texture_kind() },
        },
    )
}

/// Raw-copy extraction: maps the payload for CPU reading and copies plane 0
/// verbatim into an owned buffer.  Succeeds exactly when
/// [`spec_cpu_frame_err`] owes success, and then returns the descriptor's
/// dimensions with an exact copy of plane 0.
pub fn extract_cpu_frame(s: &Sample) -> (r: Result<VideoFrame, RenderError>)
    ensures
        match spec_cpu_frame_err(*s) {
            Some(e) => r == Err::<VideoFrame, RenderError>(e),
            None => {
                &&& r matches Ok(f)
                &&& f.width == s.caps.unwrap().width
                &&& f.height == s.caps.unwrap().height
                &&& f.data matches FrameData::Raw(b)
                    && b@ == s.payload.unwrap().cpu_planes.unwrap()@[0]@
                &&& f.wf()
            },
        },
{
    let c = match &s.caps {
        Some(c) => c,
        None => {
            return Err(RenderError::MalformedSample);
        },
    };
    let p = match &s.payload {
        Some(p) => p,
        None => {
            return Err(RenderError::MalformedSample);
        },
    };
    if c.width <= 0 || c.height <= 0 {
        return Err(RenderError::MalformedSample);
    }
    let planes = match &p.cpu_planes {
        Some(b) => b,
        None => {
            return Err(RenderError::MalformedSample);
        },
    };
    if planes.len() == 0 {
        return Err(RenderError::MalformedSample);
    }
    let bytes = copy_bytes(&planes[0]);
    Ok(VideoFrame { width: c.width, height: c.height, data: FrameData::Raw(bytes) })
}

/// Law: a mappable sample in a packed four-channel format whose descriptor
/// names the normal 2D target yields a texture frame tagged `Normal`, with
/// the plane-0 handle and the descriptor's dimensions.
pub proof fn lemma_packed_normal_yields_normal_texture(s: Sample)
    requires
        s.caps matches Some(c) && c.width > 0 && c.height > 0 && c.format.zero_copy_eligible()
            && c.texture_target == Some(TextureTarget::Normal2D),
        s.payload matches Some(p) && p.gpu_planes matches Some(g) && g@.len() > 0,
    ensures
        spec_gpu_frame(s) matches Ok(f) && f.width == s.caps.unwrap().width && f.height
            == s.caps.unwrap().height && f.data == (FrameData::Texture {
            handle: s.payload.unwrap().gpu_planes.unwrap()@[0],
            kind: TextureKind::Normal,
        }),
{
}

/// Law: a mappable sample in a packed four-channel format whose descriptor
/// names the external sampler target yields a texture frame tagged
/// `External`.
pub proof fn lemma_external_target_yields_external_texture(s: Sample)
    requires
        s.caps matches Some(c) && c.width > 0 && c.height > 0 && c.format.zero_copy_eligible()
            && c.texture_target == Some(TextureTarget::ExternalOes),
        s.payload matches Some(p) && p.gpu_planes matches Some(g) && g@.len() > 0,
    ensures
        spec_gpu_frame(s) matches Ok(f) && f.data == (FrameData::Texture {
            handle: s.payload.unwrap().gpu_planes.unwrap()@[0],
            kind: TextureKind::External,
        }),
{
}

/// Law: on the zero-copy path, a mappable sample in any multi-plane or
/// non-packed format is rejected as unsupported; no default or garbage frame
/// is ever produced for it.
pub proof fn lemma_ineligible_format_rejected(s: Sample)
    requires
        s.caps matches Some(c) && c.width > 0 && c.height > 0 && !c.format.zero_copy_eligible(),
        s.payload matches Some(p) && p.gpu_planes matches Some(g) && g@.len() > 0,
    ensures
        spec_gpu_frame(s) == Err::<VideoFrame, RenderError>(RenderError::UnsupportedFormat),
{
}

/// Every frame the zero-copy path produces is well formed and references a
/// GPU texture, never a raw buffer: what a bridge's GL query reports is
/// what its frames carry.
pub proof fn lemma_gpu_frames_well_formed(s: Sample)
    ensures
        spec_gpu_frame(s) matches Ok(f) ==> f.wf() && f.data is Texture,
{
}

} // verus!
