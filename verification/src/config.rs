//! Window-placement configuration values and the configuration error
//! kinds. The configuration file itself (with its playback settings) is
//! read and written by the application around this crate.
use vstd::prelude::*;

verus! {

/// The saved window position.
#[derive(Debug, Clone, Copy, PartialEq, Eq, Structural)]
pub struct WindowPosition {
    pub x: i32,
    pub y: i32,
}

/// The saved window size.
#[derive(Debug, Clone, Copy, PartialEq, Eq, Structural)]
pub struct WindowSize {
    pub width: u32,
    pub height: u32,
}

/// Errors of configuration loading and saving.
#[derive(Debug)]
pub enum ConfigError {
    IoError(String),
    SerializationError(String),
    InvalidPath,
}

} // verus!
