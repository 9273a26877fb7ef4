use render_bridge::error::RenderError;
use render_bridge::frame::{extract_cpu_frame, extract_gpu_frame};
use render_bridge::sample::{Caps, Payload, PixelFormat, Sample, TextureTarget};
use render_bridge::video::{FrameData, TextureKind};

fn caps(width: i32, height: i32, format: PixelFormat, target: Option<TextureTarget>) -> Caps {
    Caps { width, height, format, texture_target: target }
}

fn gpu_sample(c: Caps, handles: Vec<u32>) -> Sample {
    Sample {
        caps: Some(c),
        payload: Some(Payload { gpu_planes: Some(handles), cpu_planes: None }),
    }
}

fn cpu_sample(c: Caps, planes: Vec<Vec<u8>>) -> Sample {
    Sample {
        caps: Some(c),
        payload: Some(Payload { gpu_planes: None, cpu_planes: Some(planes) }),
    }
}

#[test]
fn packed_normal_target_gives_normal_texture() {
    let s = gpu_sample(
        caps(64, 64, PixelFormat::Rgba, Some(TextureTarget::Normal2D)),
        vec![7],
    );
    let f = extract_gpu_frame(&s).expect("eligible sample");
    assert_eq!(f.width, 64);
    assert_eq!(f.height, 64);
    match f.data {
        FrameData::Texture { handle, kind } => {
            assert_eq!(handle, 7);
            assert_eq!(kind, TextureKind::Normal);
        },
        FrameData::Raw(_) => panic!("expected a texture frame"),
    }
}

#[test]
fn absent_target_attribute_gives_normal_texture() {
    let s = gpu_sample(caps(16, 8, PixelFormat::Rgba, None), vec![3]);
    let f = extract_gpu_frame(&s).expect("eligible sample");
    match f.data {
        FrameData::Texture { kind, .. } => assert_eq!(kind, TextureKind::Normal),
        FrameData::Raw(_) => panic!("expected a texture frame"),
    }
}

#[test]
fn external_target_gives_external_texture() {
    let s = gpu_sample(
        caps(32, 32, PixelFormat::Rgba, Some(TextureTarget::ExternalOes)),
        vec![9],
    );
    let f = extract_gpu_frame(&s).expect("eligible sample");
    match f.data {
        FrameData::Texture { handle, kind } => {
            assert_eq!(handle, 9);
            assert_eq!(kind, TextureKind::External);
        },
        FrameData::Raw(_) => panic!("expected a texture frame"),
    }
}

#[test]
fn other_packed_four_channel_format_is_eligible() {
    let s = gpu_sample(caps(4, 4, PixelFormat::Bgra, Some(TextureTarget::Normal2D)), vec![1]);
    assert!(extract_gpu_frame(&s).is_ok());
}

#[test]
fn multi_plane_formats_are_unsupported_on_gpu_path() {
    for format in [PixelFormat::I420, PixelFormat::Nv12] {
        let s = gpu_sample(caps(64, 64, format, Some(TextureTarget::Normal2D)), vec![7, 8, 9]);
        assert_eq!(extract_gpu_frame(&s), Err(RenderError::UnsupportedFormat));
    }
}

#[test]
fn missing_caps_is_malformed() {
    let s = Sample {
        caps: None,
        payload: Some(Payload { gpu_planes: Some(vec![1]), cpu_planes: None }),
    };
    assert_eq!(extract_gpu_frame(&s), Err(RenderError::MalformedSample));
}

#[test]
fn missing_payload_is_malformed() {
    let s = Sample {
        caps: Some(caps(64, 64, PixelFormat::Rgba, None)),
        payload: None,
    };
    assert_eq!(extract_gpu_frame(&s), Err(RenderError::MalformedSample));
    assert_eq!(extract_cpu_frame(&s), Err(RenderError::MalformedSample));
}

#[test]
fn non_positive_dimensions_are_malformed() {
    let s = gpu_sample(caps(0, 64, PixelFormat::Rgba, None), vec![1]);
    assert_eq!(extract_gpu_frame(&s), Err(RenderError::MalformedSample));
    let s = gpu_sample(caps(64, -1, PixelFormat::Rgba, None), vec![1]);
    assert_eq!(extract_gpu_frame(&s), Err(RenderError::MalformedSample));
}

#[test]
fn failing_gpu_mapping_is_malformed() {
    let s = Sample {
        caps: Some(caps(64, 64, PixelFormat::Rgba, None)),
        payload: Some(Payload { gpu_planes: None, cpu_planes: Some(vec![vec![0u8; 4]]) }),
    };
    assert_eq!(extract_gpu_frame(&s), Err(RenderError::MalformedSample));
    let empty = gpu_sample(caps(64, 64, PixelFormat::Rgba, None), vec![]);
    assert_eq!(extract_gpu_frame(&empty), Err(RenderError::MalformedSample));
}

#[test]
fn mapping_precedes_format_check() {
    // An ineligible format on a sample whose GPU mapping also fails is
    // malformed, not unsupported: the mapping is attempted first.
    let s = Sample {
        caps: Some(caps(64, 64, PixelFormat::I420, None)),
        payload: Some(Payload { gpu_planes: None, cpu_planes: None }),
    };
    assert_eq!(extract_gpu_frame(&s), Err(RenderError::MalformedSample));
}

#[test]
fn cpu_path_copies_plane_zero_verbatim() {
    let bytes = vec![1u8, 2, 3, 4, 250, 251, 252, 253];
    let s = cpu_sample(caps(2, 1, PixelFormat::Bgra, None), vec![bytes.clone(), vec![9u8]]);
    let f = extract_cpu_frame(&s).expect("mappable sample");
    assert_eq!(f.width, 2);
    assert_eq!(f.height, 1);
    match f.data {
        FrameData::Raw(b) => assert_eq!(b, bytes),
        FrameData::Texture { .. } => panic!("expected a raw frame"),
    }
}

#[test]
fn cpu_path_accepts_multi_plane_formats() {
    let s = cpu_sample(caps(4, 4, PixelFormat::I420, None), vec![vec![5u8; 16], vec![0u8; 4]]);
    assert!(extract_cpu_frame(&s).is_ok());
}

#[test]
fn failing_cpu_mapping_is_malformed() {
    let s = Sample {
        caps: Some(caps(64, 64, PixelFormat::Bgra, None)),
        payload: Some(Payload { gpu_planes: Some(vec![1]), cpu_planes: None }),
    };
    assert_eq!(extract_cpu_frame(&s), Err(RenderError::MalformedSample));
    let empty = cpu_sample(caps(64, 64, PixelFormat::Bgra, None), vec![]);
    assert_eq!(extract_cpu_frame(&empty), Err(RenderError::MalformedSample));
}

#[test]
fn plane_counts_follow_the_format() {
    assert_eq!(PixelFormat::Rgba.plane_count(), 1);
    assert_eq!(PixelFormat::Bgra.plane_count(), 1);
    assert_eq!(PixelFormat::Nv12.plane_count(), 2);
    assert_eq!(PixelFormat::I420.plane_count(), 3);
    assert!(PixelFormat::Rgba.is_zero_copy_eligible());
    assert!(!PixelFormat::Nv12.is_zero_copy_eligible());
}
