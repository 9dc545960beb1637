//! The media editor's plain configuration types. The image and video
//! operations themselves are codec glue and live outside this crate.
use vstd::prelude::*;

verus! {

/// A rectangular crop area in pixel coordinates.
#[derive(Debug, Clone, Copy, PartialEq, Eq, Structural)]
pub struct CropRect {
    pub x: u32,
    pub y: u32,
    pub width: u32,
    pub height: u32,
}

/// Configuration for media export operations.
#[derive(Debug, Clone, PartialEq)]
pub struct ExportConfig {
    pub video_codec: String,
    pub audio_codec: String,
    pub quality: String,
}

/// Default export settings for media operations.
#[derive(Debug, Clone, Copy)]
pub struct ExportDefaults {
    pub video_codec: &'static str,
    pub audio_codec: &'static str,
    pub image_format: &'static str,
    pub video_quality: &'static str,
}

/// A named export preset with specific encoding parameters.
#[derive(Debug, Clone, Copy)]
pub struct ExportPreset {
    pub name: &'static str,
    pub video_codec: &'static str,
    pub crf: u8,
    pub preset: &'static str,
    pub audio_codec: &'static str,
}

} // verus!
