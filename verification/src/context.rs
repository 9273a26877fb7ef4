//! The application's GL context as the bridge consumes it, and the shared
//! handles the bridge owns for its lifetime.
//!
//! Native handles are modelled as plain integers; a zero handle is the null
//! handle and stands for a wrapping failure in the native graphics API.

use vstd::prelude::*;

verus! {

/// GL API variant the application renders with.
#[derive(Clone, Copy, Debug, PartialEq, Eq, Structural)]
pub enum GlApi {
    OpenGl,
    OpenGl3,
    Gles1,
    Gles2,
    /// No usable API reported.
    NoApi,
}

/// The application's native rendering context handle, by windowing API.
#[derive(Clone, Copy, Debug, PartialEq, Eq, Structural)]
pub enum GlContext {
    Egl(usize),
    Glx(usize),
    Unknown,
}

/// The application's native display handle, by windowing API.
#[derive(Clone, Copy, Debug, PartialEq, Eq, Structural)]
pub enum NativeDisplay {
    Egl(usize),
    X11(usize),
    Unknown,
}

/// What the application's opaque context provider reports: display handle,
/// rendering context handle, and the GL API in use.
#[derive(Clone, Copy, Debug)]
pub struct AppGlInfo {
    pub native_display: NativeDisplay,
    pub gl_context: GlContext,
    pub api: GlApi,
}

impl AppGlInfo {
    /// Whether the application context can be wrapped in the display's
    /// native graphics API: only a non-null EGL context over a non-null EGL
    /// display is supported.  Everything else is silent unavailability.
    pub open spec fn can_wrap(self) -> bool {
        &&& self.gl_context matches GlContext::Egl(c) && c != 0
        &&& self.native_display matches NativeDisplay::Egl(d) && d != 0
    }
}

/// The shared context handles the bridge owns: the GPU display and the
/// wrapped application GL context.  The bus observer only lends them to
/// requesting elements, never transfers ownership.
#[derive(Clone, Copy, Debug, PartialEq, Eq, Structural)]
pub struct ContextHandles {
    pub display: usize,
    pub app_context: usize,
}

/// Wraps the application context into shared handles, when the reported
/// display and context admit it.
pub fn wrap_app_context(info: &AppGlInfo) -> (r: Option<ContextHandles>)
    ensures
        r is Some <==> info.can_wrap(),
        r matches Some(h) ==> ({
            &&& info.gl_context matches GlContext::Egl(c) && h.app_context == c
            &&& info.native_display matches NativeDisplay::Egl(d) && h.display == d
        }),
{
    match (&info.gl_context, &info.native_display) {
        (GlContext::Egl(c), NativeDisplay::Egl(d)) => {
            if *c != 0 && *d != 0 {
                Some(ContextHandles { display: *d, app_context: *c })
            } else {
                None
            }
        },
        _ => None,
    }
}

} // verus!
