//! Model of the pipeline framework's element layer.
//!
//! The hosting pipeline framework instantiates processing elements by factory
//! name, links them into a sink sub-pipeline, and owns a message bus.  Those
//! names and property slots are a binding wire contract, so the model keeps
//! them explicit: a [`Platform`] says which factories the host exposes, a
//! [`Pipeline`] holds the video-sink slot and the bus observer, and a
//! [`SinkBin`] is the assembled chain with the capability set declared on its
//! pull point.

use vstd::prelude::*;
use crate::negotiator::ContextNegotiator;
use crate::sample::{Caps, PixelFormat, TextureTarget};

verus! {

/// Factory identifiers of the native elements the bridge instantiates or
/// looks for.
#[derive(Clone, Copy, Debug, PartialEq, Eq, Structural)]
pub enum FactoryKind {
    /// The application-visible pull point.
    AppSink,
    /// The GL-upload wrapping bin whose internal sink is the pull point.
    GlSinkBin,
    /// The device-memory download element.
    D3d11Download,
    /// The format-convert element of the raw-copy path.
    D3d11Convert,
    /// The element responsible for GPU upload inside the wrapping bin.
    GlUpload,
    /// Any other element, by an opaque factory tag.
    Other(u32),
}

impl FactoryKind {
    /// The factory name this identifier stands for on the wire.
    pub fn name(&self) -> (r: &'static str)
        ensures
            self is AppSink ==> r@ == "appsink"@,
            self is GlSinkBin ==> r@ == "glsinkbin"@,
            self is D3d11Download ==> r@ == "d3d11download"@,
            self is D3d11Convert ==> r@ == "d3d11convert"@,
            self is GlUpload ==> r@ == "glupload"@,
    {
        match self {
            FactoryKind::AppSink => "appsink",
            FactoryKind::GlSinkBin => "glsinkbin",
            FactoryKind::D3d11Download => "d3d11download",
            FactoryKind::D3d11Convert => "d3d11convert",
            FactoryKind::GlUpload => "glupload",
            FactoryKind::Other(_) => "",
        }
    }
}

/// One instantiated element: its factory plus the GPU context the pipeline
/// may have handed it (absent until negotiation reaches the element).
#[derive(Clone, Copy, Debug)]
pub struct Element {
    pub factory: FactoryKind,
    pub context: Option<u32>,
}

/// Capability set declared on a pull point.
#[derive(Clone, Copy, Debug, PartialEq, Eq, Structural)]
pub struct CapsDecl {
    /// The accepted pixel format.
    pub format: PixelFormat,
    /// Whether payloads must live in GPU memory (the zero-copy path).
    pub gl_memory: bool,
    /// Whether the normal 2D texture target is accepted.
    pub allow_target_2d: bool,
    /// Whether the external sampler target is accepted.
    pub allow_target_external: bool,
    /// Whether a 1:1 pixel-aspect-ratio constraint is declared (raw path).
    pub square_pixels: bool,
}

impl CapsDecl {
    /// Whether a sample descriptor satisfies this declared capability set:
    /// the format must match, and on the GL-memory path the descriptor's
    /// texture target (the 2D target when the attribute is absent) must be
    /// among the enumerated ones.
    pub open spec fn spec_admits(&self, c: Caps) -> bool {
        &&& c.format == self.format
        &&& self.gl_memory ==> match c.texture_target {
            Some(TextureTarget::ExternalOes) => self.allow_target_external,
            _ => self.allow_target_2d,
        }
    }

    /// Executable admission test.
    pub fn admits(&self, c: &Caps) -> (b: bool)
        ensures
            b == self.spec_admits(*c),
    {
        if c.format != self.format {
            return false;
        }
        if self.gl_memory {
            match c.texture_target {
                Some(TextureTarget::ExternalOes) => self.allow_target_external,
                _ => self.allow_target_2d,
            }
        } else {
            true
        }
    }
}

/// The capability set the GPU path declares on its pull point: the packed
/// format in GL memory, with both texture targets enumerated.
pub open spec fn gpu_caps_decl() -> CapsDecl {
    CapsDecl {
        format: PixelFormat::Rgba,
        gl_memory: true,
        allow_target_2d: true,
        allow_target_external: true,
        square_pixels: false,
    }
}

/// The capability set the raw path declares: a fixed raw format in system
/// memory with square pixels.
pub open spec fn cpu_caps_decl() -> CapsDecl {
    CapsDecl {
        format: PixelFormat::Bgra,
        gl_memory: false,
        allow_target_2d: false,
        allow_target_external: false,
        square_pixels: true,
    }
}

/// Builds the GPU-path capability set.
pub fn make_gpu_caps() -> (c: CapsDecl)
    ensures
        c == gpu_caps_decl(),
{
    CapsDecl {
        format: PixelFormat::Rgba,
        gl_memory: true,
        allow_target_2d: true,
        allow_target_external: true,
        square_pixels: false,
    }
}

/// Builds the raw-path capability set.
pub fn make_cpu_caps() -> (c: CapsDecl)
    ensures
        c == cpu_caps_decl(),
{
    CapsDecl {
        format: PixelFormat::Bgra,
        gl_memory: false,
        allow_target_2d: false,
        allow_target_external: false,
        square_pixels: true,
    }
}

/// The application-visible pull point, carrying the capability set declared
/// on it once a sink is built.
#[derive(Clone, Copy, Debug)]
pub struct AppSink {
    pub caps: Option<CapsDecl>,
}

/// The assembled sink sub-pipeline: a chain of elements, upstream first,
/// whose single sink-facing pad is the first element's, and the capability
/// set declared on the pull point it terminates in.
#[derive(Clone, Debug)]
pub struct SinkBin {
    pub chain: Vec<FactoryKind>,
    pub pull_caps: CapsDecl,
}

/// The pipeline's slots the bridge mutates: the video-sink slot and the
/// synchronous bus observer.
#[derive(Clone, Debug)]
pub struct Pipeline {
    pub video_sink: Option<SinkBin>,
    pub bus_observer: Option<ContextNegotiator>,
}

impl Pipeline {
    /// A pipeline with nothing installed yet.
    pub fn new() -> (p: Pipeline)
        ensures
            p.video_sink is None,
            p.bus_observer is None,
    {
        Pipeline { video_sink: None, bus_observer: None }
    }
}

/// What the hosting platform exposes: which factories exist, what the
/// GL-upload wrapping bin contains once instantiated, and the transient
/// resync faults its child enumeration raises, one entry per walk attempt.
#[derive(Clone, Debug)]
pub struct Platform {
    /// Whether the host OS has a GPU-accelerated bridge realization at all.
    pub gl_render_supported: bool,
    pub has_appsink: bool,
    pub has_glsinkbin: bool,
    pub has_d3d11download: bool,
    pub has_d3d11convert: bool,
    /// Children the wrapping bin exposes to enumeration after it is built.
    pub glsinkbin_children: Vec<Element>,
    /// Per-attempt fault schedule of the child enumeration; attempts past
    /// the end of the schedule do not fault.
    pub walk_faults: Vec<bool>,
}

impl Platform {
    /// Whether the platform can instantiate elements of the given factory.
    pub open spec fn provides(&self, f: FactoryKind) -> bool {
        match f {
            FactoryKind::AppSink => self.has_appsink,
            FactoryKind::GlSinkBin => self.has_glsinkbin,
            FactoryKind::D3d11Download => self.has_d3d11download,
            FactoryKind::D3d11Convert => self.has_d3d11convert,
            FactoryKind::GlUpload => false,
            FactoryKind::Other(_) => false,
        }
    }

    /// Probes for a factory without instantiating anything.
    pub fn find(&self, f: FactoryKind) -> (b: bool)
        ensures
            b == self.provides(f),
    {
        match f {
            FactoryKind::AppSink => self.has_appsink,
            FactoryKind::GlSinkBin => self.has_glsinkbin,
            FactoryKind::D3d11Download => self.has_d3d11download,
            FactoryKind::D3d11Convert => self.has_d3d11convert,
            FactoryKind::GlUpload => false,
            FactoryKind::Other(_) => false,
        }
    }

    /// Instantiates an element of the given factory, if the platform
    /// provides it.  A fresh element has no context attached yet.
    pub fn instantiate(&self, f: FactoryKind) -> (r: Option<Element>)
        ensures
            r is Some <==> self.provides(f),
            r matches Some(e) ==> e.factory == f && e.context is None,
    {
        let available = match f {
            FactoryKind::AppSink => self.has_appsink,
            FactoryKind::GlSinkBin => self.has_glsinkbin,
            FactoryKind::D3d11Download => self.has_d3d11download,
            FactoryKind::D3d11Convert => self.has_d3d11convert,
            FactoryKind::GlUpload => false,
            FactoryKind::Other(_) => false,
        };
        if available {
            Some(Element { factory: f, context: None })
        } else {
            None
        }
    }
}

} // verus!
