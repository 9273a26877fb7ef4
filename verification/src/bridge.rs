//! The render bridge itself: a GPU-accelerated realization, a raw-copy
//! fallback realization, and the capability wrapper that picks between them
//! once at startup.

use vstd::prelude::*;
use crate::context::{AppGlInfo, ContextHandles, GlApi, GlContext, NativeDisplay, wrap_app_context};
use crate::discovery::{discover_upload, spec_discovery_element};
use crate::elements::{
    AppSink, Element, FactoryKind, Pipeline, Platform, SinkBin, cpu_caps_decl, gpu_caps_decl,
    make_cpu_caps, make_gpu_caps,
};
use crate::error::RenderError;
use crate::frame::{extract_cpu_frame, extract_gpu_frame, spec_cpu_frame_err, spec_gpu_frame};
use crate::negotiator::ContextNegotiator;
use crate::once::WriteOnce;
use crate::sample::Sample;
use crate::video::{FrameData, VideoFrame};

verus! {

/// The element chain of the GPU sink: a device-memory download element
/// feeding the GL-upload wrapping bin whose internal sink is the pull
/// point.
pub open spec fn gpu_chain() -> Seq<FactoryKind> {
    seq![FactoryKind::D3d11Download, FactoryKind::GlSinkBin]
}

/// The element chain of the raw sink: a format-convert element, the
/// device-memory download element, then the pull point.
pub open spec fn cpu_chain() -> Seq<FactoryKind> {
    seq![FactoryKind::D3d11Convert, FactoryKind::D3d11Download, FactoryKind::AppSink]
}

/// The GPU-accelerated bridge realization.  It owns the shared context
/// handles for its whole lifetime and the two lazily filled caches into the
/// sink it builds.
pub struct RenderUWP {
    /// Display and wrapped application context, lent to pipeline elements
    /// by the bus observer.
    pub handles: ContextHandles,
    /// GL API variant the application reported.
    pub api: GlApi,
    /// Whether activating the wrapped context succeeded.  Diagnostic only:
    /// activation is attempted opportunistically and never turns into a
    /// hard failure.
    pub context_activated: bool,
    /// Cached pipeline GL context, read lazily from the upload element.
    pub pipeline_context: WriteOnce<u32>,
    /// Cached upload element, filled by discovery when the sink is built.
    pub upload_element: WriteOnce<Element>,
    /// Whether the sink was already built on this instance.
    pub configured: bool,
}

/// Why the GPU realization refuses to build its sink, if it does: a second
/// build on the same instance, or a missing native element, probed in the
/// order the elements are needed.
pub open spec fn spec_gpu_sink_refusal(b: RenderUWP, p: Platform) -> Option<RenderError> {
    if b.configured {
        Some(RenderError::AlreadyConfigured)
    } else if !p.has_d3d11download {
        Some(RenderError::MissingNativeElement(FactoryKind::D3d11Download))
    } else if !p.has_glsinkbin {
        Some(RenderError::MissingNativeElement(FactoryKind::GlSinkBin))
    } else {
        None
    }
}

impl RenderUWP {
    /// An unconfigured bridge has discovered nothing yet.
    pub open spec fn wf(&self) -> bool {
        !self.configured ==> self.upload_element.spec_value() is None
    }

    /// Tries to create the GPU-accelerated realization.
    ///
    /// Succeeds exactly when the platform exposes the GL-upload wrapping
    /// bin and the application context can be wrapped; anything else is
    /// permanent unavailability and the caller must fall back to the
    /// raw-copy realization.  Whether activating the wrapped context
    /// succeeded is recorded for diagnostics and never fails construction.
    pub fn new(platform: &Platform, info: &AppGlInfo, activation_ok: bool) -> (r: Result<
        RenderUWP,
        RenderError,
    >)
        ensures
            r is Ok <==> platform.has_glsinkbin && info.can_wrap(),
            r matches Ok(b) ==> ({
                &&& info.gl_context matches GlContext::Egl(c) && b.handles.app_context == c
                &&& info.native_display matches NativeDisplay::Egl(d) && b.handles.display == d
                &&& b.api == info.api
                &&& b.context_activated == activation_ok
                &&& !b.configured
                &&& b.pipeline_context.spec_value() is None
                &&& b.upload_element.spec_value() is None
            }),
            r is Err ==> r == Err::<RenderUWP, RenderError>(RenderError::BackendUnavailable),
    {
        if !platform.find(FactoryKind::GlSinkBin) {
            return Err(RenderError::BackendUnavailable);
        }
        let handles = match wrap_app_context(info) {
            Some(h) => h,
            None => {
                return Err(RenderError::BackendUnavailable);
            },
        };
        Ok(
            RenderUWP {
                handles,
                api: info.api,
                context_activated: activation_ok,
                pipeline_context: WriteOnce::empty(),
                upload_element: WriteOnce::empty(),
                configured: false,
            },
        )
    }

    /// Frames of this realization reference GPU textures.
    pub fn is_gl(&self) -> (b: bool)
        ensures
            b,
    {
        true
    }

    /// Builds and installs the GPU sink sub-pipeline exactly once.
    ///
    /// Every needed element is probed before the pipeline is touched, so a
    /// refusal leaves bridge, pull point and pipeline exactly as they were.
    /// On success the pull point declares the zero-copy capability set, the
    /// assembled chain sits in the pipeline's video-sink slot, the bus
    /// observer holds copies of the shared handles, and the upload cache
    /// holds whatever the bounded discovery walk found.
    pub fn build_video_sink(
        &mut self,
        appsink: &mut AppSink,
        pipeline: &mut Pipeline,
        platform: &Platform,
    ) -> (r: Result<(), RenderError>)
        requires
            old(self).wf(),
        ensures
            final(self).wf(),
            match spec_gpu_sink_refusal(*old(self), *platform) {
                Some(e) => {
                    &&& r == Err::<(), RenderError>(e)
                    &&& *final(self) == *old(self)
                    &&& *final(appsink) == *old(appsink)
                    &&& *final(pipeline) == *old(pipeline)
                },
                None => {
                    &&& r == Ok::<(), RenderError>(())
                    &&& final(self).configured
                    &&& final(self).handles == old(self).handles
                    &&& final(self).api == old(self).api
                    &&& final(self).context_activated == old(self).context_activated
                    &&& final(self).pipeline_context == old(self).pipeline_context
                    &&& final(self).upload_element.spec_value() == spec_discovery_element(
                        platform.glsinkbin_children@,
                        platform.walk_faults@,
                    )
                    &&& final(appsink).caps == Some(gpu_caps_decl())
                    &&& final(pipeline).video_sink matches Some(bin) && bin.chain@ == gpu_chain()
                        && bin.pull_caps == gpu_caps_decl()
                    &&& final(pipeline).bus_observer matches Some(obs) && obs.handles == old(
                        self,
                    ).handles
                },
            },
    {
        if self.configured {
            return Err(RenderError::AlreadyConfigured);
        }
        let download = match platform.instantiate(FactoryKind::D3d11Download) {
            Some(e) => e,
            None => {
                return Err(RenderError::MissingNativeElement(FactoryKind::D3d11Download));
            },
        };
        let vsinkbin = match platform.instantiate(FactoryKind::GlSinkBin) {
            Some(e) => e,
            None => {
                return Err(RenderError::MissingNativeElement(FactoryKind::GlSinkBin));
            },
        };
        appsink.caps = Some(make_gpu_caps());
        let mut chain: Vec<FactoryKind> = Vec::new();
        chain.push(download.factory);
        chain.push(vsinkbin.factory);
        assert(chain@ =~= gpu_chain());
        pipeline.video_sink = Some(SinkBin { chain, pull_caps: make_gpu_caps() });
        pipeline.bus_observer = Some(ContextNegotiator::new(self.handles));
        let found = discover_upload(&platform.glsinkbin_children, &platform.walk_faults);
        if let Some(e) = found.element {
            self.upload_element.set_if_empty(e);
        }
        self.configured = true;
        Ok(())
    }

    /// Converts one sample into a frame on the zero-copy path.
    ///
    /// The frame is a pure function of the sample; the one side effect is
    /// lazily caching the pipeline's GL context as read from the upload
    /// element, and an empty cache never blocks or fails a frame.
    pub fn build_frame(&mut self, s: &Sample) -> (r: Result<VideoFrame, RenderError>)
        ensures
            r == spec_gpu_frame(*s),
            final(self).pipeline_context.spec_value() == if old(
                self,
            ).pipeline_context.spec_value() is None {
                match old(self).upload_element.spec_value() {
                    Some(el) => el.context,
                    None => None::<u32>,
                }
            } else {
                old(self).pipeline_context.spec_value()
            },
            final(self).upload_element == old(self).upload_element,
            final(self).configured == old(self).configured,
            final(self).handles == old(self).handles,
            final(self).api == old(self).api,
            final(self).context_activated == old(self).context_activated,
    {
        let negotiated: Option<u32> = match self.upload_element.get() {
            Some(el) => el.context,
            None => None,
        };
        if let Some(c) = negotiated {
            self.pipeline_context.set_if_empty(c);
        }
        extract_gpu_frame(s)
    }
}

/// The raw-copy fallback realization: no context negotiation, frames are
/// CPU copies.
pub struct RenderDummy {
    /// Whether the sink was already built on this instance.
    pub configured: bool,
}

/// Why the raw realization refuses to build its sink, if it does.
pub open spec fn spec_cpu_sink_refusal(d: RenderDummy, p: Platform) -> Option<RenderError> {
    if d.configured {
        Some(RenderError::AlreadyConfigured)
    } else if !p.has_d3d11convert {
        Some(RenderError::MissingNativeElement(FactoryKind::D3d11Convert))
    } else if !p.has_d3d11download {
        Some(RenderError::MissingNativeElement(FactoryKind::D3d11Download))
    } else {
        None
    }
}

impl RenderDummy {
    /// A fresh fallback bridge.
    pub fn new() -> (r: RenderDummy)
        ensures
            !r.configured,
    {
        RenderDummy { configured: false }
    }

    /// Frames of this realization never reference GPU textures.
    pub fn is_gl(&self) -> (b: bool)
        ensures
            !b,
    {
        false
    }

    /// Converts one sample into a frame by copying the first plane of its
    /// CPU-mapped payload.
    pub fn build_frame(&self, s: &Sample) -> (r: Result<VideoFrame, RenderError>)
        ensures
            match spec_cpu_frame_err(*s) {
                Some(e) => r == Err::<VideoFrame, RenderError>(e),
                None => {
                    &&& r matches Ok(f)
                    &&& f.width == s.caps.unwrap().width
                    &&& f.height == s.caps.unwrap().height
                    &&& f.data matches FrameData::Raw(b) && b@ == s.payload.unwrap().cpu_planes.unwrap()@[0]@
                    &&& f.wf()
                },
            },
    {
        extract_cpu_frame(s)
    }

    /// Builds and installs the minimal raw-path sink exactly once: the
    /// convert and download elements ahead of the pull point, declaring the
    /// fixed raw format with square pixels.  No bus observer is installed.
    pub fn build_video_sink(
        &mut self,
        appsink: &mut AppSink,
        pipeline: &mut Pipeline,
        platform: &Platform,
    ) -> (r: Result<(), RenderError>)
        ensures
            match spec_cpu_sink_refusal(*old(self), *platform) {
                Some(e) => {
                    &&& r == Err::<(), RenderError>(e)
                    &&& *final(self) == *old(self)
                    &&& *final(appsink) == *old(appsink)
                    &&& *final(pipeline) == *old(pipeline)
                },
                None => {
                    &&& r == Ok::<(), RenderError>(())
                    &&& final(self).configured
                    &&& final(appsink).caps == Some(cpu_caps_decl())
                    &&& final(pipeline).video_sink matches Some(bin) && bin.chain@ == cpu_chain()
                        && bin.pull_caps == cpu_caps_decl()
                    &&& final(pipeline).bus_observer == old(pipeline).bus_observer
                },
            },
    {
        if self.configured {
            return Err(RenderError::AlreadyConfigured);
        }
        let convert = match platform.instantiate(FactoryKind::D3d11Convert) {
            Some(e) => e,
            None => {
                return Err(RenderError::MissingNativeElement(FactoryKind::D3d11Convert));
            },
        };
        let download = match platform.instantiate(FactoryKind::D3d11Download) {
            Some(e) => e,
            None => {
                return Err(RenderError::MissingNativeElement(FactoryKind::D3d11Download));
            },
        };
        appsink.caps = Some(make_cpu_caps());
        let mut chain: Vec<FactoryKind> = Vec::new();
        chain.push(convert.factory);
        chain.push(download.factory);
        chain.push(FactoryKind::AppSink);
        assert(chain@ =~= cpu_chain());
        pipeline.video_sink = Some(SinkBin { chain, pull_caps: make_cpu_caps() });
        self.configured = true;
        Ok(())
    }
}

/// Probes the platform for a GPU-accelerated realization: one exists only
/// on hosts that support GL rendering at all, expose the wrapping bin, and
/// hand over a wrappable application context.
pub fn create_render(platform: &Platform, info: &AppGlInfo, activation_ok: bool) -> (r: Option<
    RenderUWP,
>)
    ensures
        r is Some <==> platform.gl_render_supported && platform.has_glsinkbin && info.can_wrap(),
        r matches Some(b) ==> ({
            &&& info.gl_context matches GlContext::Egl(c) && b.handles.app_context == c
            &&& info.native_display matches NativeDisplay::Egl(d) && b.handles.display == d
            &&& b.api == info.api
            &&& b.context_activated == activation_ok
            &&& !b.configured
            &&& b.pipeline_context.spec_value() is None
            &&& b.upload_element.spec_value() is None
            &&& b.wf()
        }),
{
    if !platform.gl_render_supported {
        return None;
    }
    match RenderUWP::new(platform, info, activation_ok) {
        Ok(b) => Some(b),
        Err(_) => None,
    }
}

/// The bridge the player holds: the GPU realization when the platform
/// yields one, else the raw-copy fallback.
pub struct GStreamerRender {
    /// The GPU-accelerated realization, when construction succeeded.
    pub render: Option<RenderUWP>,
    /// The raw-copy fallback, used whenever `render` is absent.
    pub dummy: RenderDummy,
}

/// Why the bridge refuses to set up the video sink, if it does: no pull
/// point on this platform, or whatever the active realization refuses.
pub open spec fn spec_setup_refusal(g: GStreamerRender, p: Platform) -> Option<RenderError> {
    if !p.has_appsink {
        Some(RenderError::MissingNativeElement(FactoryKind::AppSink))
    } else {
        match g.render {
            Some(b) => spec_gpu_sink_refusal(b, p),
            None => spec_cpu_sink_refusal(g.dummy, p),
        }
    }
}

impl GStreamerRender {
    /// The realization caches are sane.
    pub open spec fn wf(&self) -> bool {
        self.render matches Some(b) ==> b.wf()
    }

    /// Selects the realization once, at startup.
    pub fn new(platform: &Platform, info: &AppGlInfo, activation_ok: bool) -> (r: GStreamerRender)
        ensures
            r.render is Some <==> platform.gl_render_supported && platform.has_glsinkbin
                && info.can_wrap(),
            r.render matches Some(b) ==> ({
                &&& info.gl_context matches GlContext::Egl(c) && b.handles.app_context == c
                &&& info.native_display matches NativeDisplay::Egl(d) && b.handles.display == d
                &&& b.api == info.api
                &&& b.context_activated == activation_ok
                &&& !b.configured
            }),
            !r.dummy.configured,
            r.wf(),
    {
        GStreamerRender { render: create_render(platform, info, activation_ok), dummy: RenderDummy::new() }
    }

    /// Whether produced frames reference GPU textures.  Pure.
    pub fn is_gl(&self) -> (b: bool)
        ensures
            b == (self.render is Some),
    {
        match &self.render {
            Some(r) => r.is_gl(),
            None => false,
        }
    }

    /// Converts one pulled sample into a frame on the active path: the
    /// zero-copy extraction when the GPU realization is active, the raw
    /// copy otherwise.
    pub fn get_frame_from_sample(&mut self, s: &Sample) -> (r: Result<VideoFrame, RenderError>)
        ensures
            old(self).render is None ==> {
                &&& *final(self) == *old(self)
                &&& match spec_cpu_frame_err(*s) {
                    Some(e) => r == Err::<VideoFrame, RenderError>(e),
                    None => {
                        &&& r matches Ok(f)
                        &&& f.width == s.caps.unwrap().width
                        &&& f.height == s.caps.unwrap().height
                        &&& f.data matches FrameData::Raw(b) && b@ == s.payload.unwrap().cpu_planes.unwrap()@[0]@
                    },
                }
            },
            old(self).render matches Some(b) ==> {
                &&& r == spec_gpu_frame(*s)
                &&& final(self).dummy == old(self).dummy
                &&& final(self).render matches Some(b2) && b2.configured == b.configured
                    && b2.upload_element == b.upload_element && b2.handles == b.handles
                    && b2.pipeline_context.spec_value() == (
                    if b.pipeline_context.spec_value() is None {
                        match b.upload_element.spec_value() {
                            Some(el) => el.context,
                            None => None::<u32>,
                        }
                    } else {
                        b.pipeline_context.spec_value()
                    })
            },
    {
        match &mut self.render {
            Some(b) => b.build_frame(s),
            None => self.dummy.build_frame(s),
        }
    }

    /// Creates the pull point and lets the active realization build and
    /// install its sink around it, exactly once.  On refusal, bridge and
    /// pipeline are exactly as they were.
    pub fn setup_video_sink(&mut self, pipeline: &mut Pipeline, platform: &Platform) -> (r: Result<
        AppSink,
        RenderError,
    >)
        requires
            old(self).wf(),
        ensures
            final(self).wf(),
            match spec_setup_refusal(*old(self), *platform) {
                Some(e) => {
                    &&& r == Err::<AppSink, RenderError>(e)
                    &&& *final(self) == *old(self)
                    &&& *final(pipeline) == *old(pipeline)
                },
                None => {
                    &&& match old(self).render {
                        Some(b) => {
                            &&& r matches Ok(a) && a.caps == Some(gpu_caps_decl())
                            &&& final(self).dummy == old(self).dummy
                            &&& final(self).render matches Some(b2) && b2.configured
                                && b2.handles == b.handles
                                && b2.upload_element.spec_value() == spec_discovery_element(
                                platform.glsinkbin_children@,
                                platform.walk_faults@,
                            )
                            &&& final(pipeline).video_sink matches Some(bin) && bin.chain@
                                == gpu_chain() && bin.pull_caps == gpu_caps_decl()
                            &&& final(pipeline).bus_observer matches Some(obs) && obs.handles
                                == b.handles
                        },
                        None => {
                            &&& r matches Ok(a) && a.caps == Some(cpu_caps_decl())
                            &&& final(self).render is None
                            &&& final(self).dummy.configured
                            &&& final(pipeline).video_sink matches Some(bin) && bin.chain@
                                == cpu_chain() && bin.pull_caps == cpu_caps_decl()
                            &&& final(pipeline).bus_observer == old(pipeline).bus_observer
                        },
                    }
                },
            },
    {
        if !platform.find(FactoryKind::AppSink) {
            return Err(RenderError::MissingNativeElement(FactoryKind::AppSink));
        }
        let mut appsink = AppSink { caps: None };
        let built = match &mut self.render {
            Some(b) => b.build_video_sink(&mut appsink, pipeline, platform),
            None => self.dummy.build_video_sink(&mut appsink, pipeline, platform),
        };
        match built {
            Ok(()) => Ok(appsink),
            Err(e) => Err(e),
        }
    }
}

} // verus!
