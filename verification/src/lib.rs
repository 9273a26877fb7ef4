//! Render bridge of a media-playback engine.
//!
//! The crate converts decoded video samples into renderer-consumable
//! [`video::VideoFrame`] values, negotiates GPU context sharing between the
//! playback pipeline and the hosting application, and assembles the
//! platform-specific sink sub-pipeline that moves device memory into GPU
//! textures.  The pipeline framework itself (elements, bus, memory mapping)
//! is the host's collaborator; it is modelled here by plain values so that
//! every decision the bridge makes is stated and proved.

pub mod bridge;
pub mod context;
pub mod discovery;
pub mod elements;
pub mod error;
pub mod frame;
pub mod negotiator;
pub mod once;
pub mod sample;
pub mod video;
