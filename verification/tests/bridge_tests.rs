use render_bridge::bridge::{create_render, GStreamerRender, RenderDummy, RenderUWP};
use render_bridge::context::{AppGlInfo, GlApi, GlContext, NativeDisplay};
use render_bridge::elements::{Element, FactoryKind, Pipeline, Platform};
use render_bridge::error::RenderError;
use render_bridge::once::WriteOnce;
use render_bridge::sample::{Caps, Payload, PixelFormat, Sample, TextureTarget};
use render_bridge::video::{FrameData, TextureKind};

fn full_platform() -> Platform {
    Platform {
        gl_render_supported: true,
        has_appsink: true,
        has_glsinkbin: true,
        has_d3d11download: true,
        has_d3d11convert: true,
        glsinkbin_children: vec![
            Element { factory: FactoryKind::Other(1), context: None },
            Element { factory: FactoryKind::GlUpload, context: Some(42) },
        ],
        walk_faults: vec![],
    }
}

fn egl_info() -> AppGlInfo {
    AppGlInfo {
        native_display: NativeDisplay::Egl(11),
        gl_context: GlContext::Egl(12),
        api: GlApi::Gles2,
    }
}

fn rgba_sample(width: i32, height: i32, handle: u32) -> Sample {
    Sample {
        caps: Some(Caps {
            width,
            height,
            format: PixelFormat::Rgba,
            texture_target: Some(TextureTarget::Normal2D),
        }),
        payload: Some(Payload { gpu_planes: Some(vec![handle]), cpu_planes: None }),
    }
}

#[test]
fn gpu_bridge_end_to_end() {
    // Construct the GPU bridge with a valid application context, build the
    // sink, emit one 64x64 packed sample with the normal target, and pull
    // the frame.
    let platform = full_platform();
    let mut bridge = GStreamerRender::new(&platform, &egl_info(), true);
    assert!(bridge.is_gl());

    let mut pipeline = Pipeline::new();
    let appsink = bridge
        .setup_video_sink(&mut pipeline, &platform)
        .expect("sink builds on a full platform");
    let caps = appsink.caps.expect("caps declared on the pull point");
    assert_eq!(caps.format, PixelFormat::Rgba);
    assert!(caps.gl_memory && caps.allow_target_2d && caps.allow_target_external);

    // The assembled sink admits the emitted sample's descriptor.
    let sample = rgba_sample(64, 64, 7);
    assert!(caps.admits(sample.caps.as_ref().unwrap()));

    let frame = bridge
        .get_frame_from_sample(&sample)
        .expect("eligible sample");
    assert_eq!(frame.width, 64);
    assert_eq!(frame.height, 64);
    match frame.data {
        FrameData::Texture { handle, kind } => {
            assert_ne!(handle, 0);
            assert_eq!(handle, 7);
            assert_eq!(kind, TextureKind::Normal);
        },
        FrameData::Raw(_) => panic!("expected a texture frame"),
    }
}

#[test]
fn first_frame_after_setup_caches_the_pipeline_context() {
    let platform = full_platform();
    let mut bridge = GStreamerRender::new(&platform, &egl_info(), true);
    let mut pipeline = Pipeline::new();
    bridge.setup_video_sink(&mut pipeline, &platform).expect("sink builds");
    {
        let gpu = bridge.render.as_ref().expect("GPU realization active");
        assert_eq!(*gpu.pipeline_context.get(), None);
    }
    bridge
        .get_frame_from_sample(&rgba_sample(8, 8, 1))
        .expect("eligible sample");
    let gpu = bridge.render.as_ref().expect("GPU realization active");
    assert_eq!(*gpu.pipeline_context.get(), Some(42));
}

#[test]
fn empty_context_cache_never_fails_a_frame() {
    // No upload element among the children: the cache stays empty and
    // frames still come out.
    let mut platform = full_platform();
    platform.glsinkbin_children =
        vec![Element { factory: FactoryKind::Other(1), context: None }];
    let mut bridge = GStreamerRender::new(&platform, &egl_info(), true);
    let mut pipeline = Pipeline::new();
    bridge.setup_video_sink(&mut pipeline, &platform).expect("sink builds");
    let frame = bridge
        .get_frame_from_sample(&rgba_sample(8, 8, 3))
        .expect("frame despite empty cache");
    assert_eq!(frame.width, 8);
    let gpu = bridge.render.as_ref().expect("GPU realization active");
    assert_eq!(*gpu.pipeline_context.get(), None);
}

#[test]
fn construction_fails_without_the_wrapping_bin() {
    let mut platform = full_platform();
    platform.has_glsinkbin = false;
    assert_eq!(
        RenderUWP::new(&platform, &egl_info(), true).err(),
        Some(RenderError::BackendUnavailable),
    );
    assert!(create_render(&platform, &egl_info(), true).is_none());
}

#[test]
fn construction_fails_on_unwrappable_contexts() {
    let platform = full_platform();
    for info in [
        AppGlInfo {
            native_display: NativeDisplay::Egl(11),
            gl_context: GlContext::Glx(12),
            api: GlApi::OpenGl,
        },
        AppGlInfo {
            native_display: NativeDisplay::X11(11),
            gl_context: GlContext::Egl(12),
            api: GlApi::Gles2,
        },
        AppGlInfo {
            native_display: NativeDisplay::Egl(11),
            gl_context: GlContext::Unknown,
            api: GlApi::NoApi,
        },
        AppGlInfo {
            native_display: NativeDisplay::Egl(0),
            gl_context: GlContext::Egl(12),
            api: GlApi::Gles2,
        },
        AppGlInfo {
            native_display: NativeDisplay::Egl(11),
            gl_context: GlContext::Egl(0),
            api: GlApi::Gles2,
        },
    ] {
        assert_eq!(
            RenderUWP::new(&platform, &info, true).err(),
            Some(RenderError::BackendUnavailable),
        );
    }
}

#[test]
fn unsupported_platform_yields_no_gpu_realization() {
    let mut platform = full_platform();
    platform.gl_render_supported = false;
    assert!(create_render(&platform, &egl_info(), true).is_none());
    let bridge = GStreamerRender::new(&platform, &egl_info(), true);
    assert!(!bridge.is_gl());
}

#[test]
fn failed_activation_degrades_gracefully() {
    // Activating the wrapped context is best effort: construction still
    // succeeds and only the diagnostic flag differs.
    let platform = full_platform();
    let bridge = RenderUWP::new(&platform, &egl_info(), false).expect("still constructed");
    assert!(!bridge.context_activated);
    assert!(bridge.is_gl());
    assert_eq!(bridge.handles.display, 11);
    assert_eq!(bridge.handles.app_context, 12);
}

#[test]
fn fallback_bridge_copies_frames() {
    let mut platform = full_platform();
    platform.gl_render_supported = false;
    let mut bridge = GStreamerRender::new(&platform, &egl_info(), true);
    let bytes = vec![9u8, 8, 7];
    let s = Sample {
        caps: Some(Caps {
            width: 3,
            height: 1,
            format: PixelFormat::Bgra,
            texture_target: None,
        }),
        payload: Some(Payload { gpu_planes: None, cpu_planes: Some(vec![bytes.clone()]) }),
    };
    let frame = bridge.get_frame_from_sample(&s).expect("raw frame");
    match frame.data {
        FrameData::Raw(b) => assert_eq!(b, bytes),
        FrameData::Texture { .. } => panic!("expected a raw frame"),
    }
}

#[test]
fn dummy_realization_reports_no_gl() {
    let dummy = RenderDummy::new();
    assert!(!dummy.is_gl());
    assert!(!dummy.configured);
}

#[test]
fn write_once_cell_keeps_its_first_value() {
    let mut cell: WriteOnce<u32> = WriteOnce::empty();
    assert_eq!(*cell.get(), None);
    assert!(!cell.is_set());
    cell.set_if_empty(1);
    assert_eq!(*cell.get(), Some(1));
    cell.set_if_empty(2);
    assert_eq!(*cell.get(), Some(1));
    assert!(cell.is_set());
}
