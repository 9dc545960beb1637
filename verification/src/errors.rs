//! The umbrella error taxonomy of the application, with its classification
//! into critical and recoverable errors, user-facing messages, and logging
//! categories.
use vstd::prelude::*;

verus! {

use vstd::string::StringExecFns;

/// Main error type for the application; categorizes all failures the
/// subsystems can report.
#[derive(Debug)]
pub enum MilkError {
    FileSystem(String),
    InvalidPath(String),
    PermissionDenied(String),
    DiskFull(String),
    CorruptedFile(String),
    AuthenticationFailed(String),
    RateLimitExceeded,
    NetworkTimeout(String),
    InvalidResponse(String),
    NetworkError(String),
    UnsupportedFormat(String),
    DecodeError(String),
    AudioDeviceUnavailable,
    InvalidConfig(String),
    ConfigParseError(String),
    MissingConfig(String),
    SkinParseError(String),
    InvalidSkinFormat(String),
    MissingSkinAssets(String),
    MetadataError(String),
    PlaylistNotFound(String),
    InvalidPlaylistOperation(String),
    SecureStorageError(String),
    Internal(String),
    Other(String),
}

/// Result type alias for operations that report a `MilkError`.
pub type MilkResult<T> = Result<T, MilkError>;

/// Whether an error is critical: it needs the user's attention.
pub open spec fn is_critical_spec(e: &MilkError) -> bool {
    ||| e matches MilkError::DiskFull(_)
    ||| e matches MilkError::PermissionDenied(_)
    ||| e matches MilkError::AudioDeviceUnavailable
    ||| e matches MilkError::AuthenticationFailed(_)
}

/// Whether an error can be recovered from gracefully, so that a retry is
/// worthwhile.
pub open spec fn is_recoverable_spec(e: &MilkError) -> bool {
    ||| e matches MilkError::NetworkTimeout(_)
    ||| e matches MilkError::RateLimitExceeded
    ||| e matches MilkError::CorruptedFile(_)
    ||| e matches MilkError::SkinParseError(_)
    ||| e matches MilkError::MetadataError(_)
}

/// The user-facing message for an error.
pub open spec fn user_message_spec(e: &MilkError) -> Seq<char> {
    match e {
        MilkError::FileSystem(m) => "Oops! I had trouble accessing a file: "@ + m@,
        MilkError::InvalidPath(m) => "Hmm, I can't find that path: "@ + m@,
        MilkError::PermissionDenied(m) => "I don't have permission to access: "@ + m@,
        MilkError::DiskFull(m) => "Your disk is full! I couldn't save: "@ + m@,
        MilkError::CorruptedFile(m) => "This file seems corrupted: "@ + m@
            + ". I'll use defaults instead."@,
        MilkError::AuthenticationFailed(m) => "Authentication failed for "@ + m@
            + ". Let's try logging in again!"@,
        MilkError::RateLimitExceeded => "Whoa, slow down! The API rate limit was exceeded. Let's wait a moment."@,
        MilkError::NetworkTimeout(m) => "Connection to "@ + m@
            + " timed out. Check your internet connection?"@,
        MilkError::InvalidResponse(m) => "Got an unexpected response: "@ + m@
            + ". Let's try again."@,
        MilkError::NetworkError(m) => "Network hiccup: "@ + m@ + ". Is your internet working?"@,
        MilkError::UnsupportedFormat(m) => "Sorry, I can't play "@ + m@
            + " files. Try MP3, FLAC, or WAV!"@,
        MilkError::DecodeError(m) => "Couldn't decode this audio file: "@ + m@
            + ". It might be corrupted."@,
        MilkError::AudioDeviceUnavailable => "No audio device found! Check your speakers or headphones."@,
        MilkError::InvalidConfig(m) => "Invalid configuration for: "@ + m@
            + ". I'll use the default."@,
        MilkError::ConfigParseError(_) => "Your config file got scrambled. Don't worry, I'll create a fresh one!"@,
        MilkError::MissingConfig(m) => "Missing configuration: "@ + m@ + ". Let's set that up!"@,
        MilkError::SkinParseError(_) => "Couldn't load that skin. I'll use the default look instead!"@,
        MilkError::InvalidSkinFormat(m) => "That's not a valid skin format: "@ + m@
            + ". Try a .wsz or .wal file!"@,
        MilkError::MissingSkinAssets(m) => "This skin is missing some parts: "@ + m@
            + ". Using defaults!"@,
        MilkError::MetadataError(_) => "Couldn't read the song info. I'll guess from the filename!"@,
        MilkError::PlaylistNotFound(m) => "Can't find that playlist: "@ + m@
            + ". Did you delete it?"@,
        MilkError::InvalidPlaylistOperation(m) => "Oops, can't do that: "@ + m@
            + ". Try something else!"@,
        MilkError::SecureStorageError(_) => "Had trouble with secure storage. Your credentials might need re-entry."@,
        MilkError::Internal(m) => "Something unexpected happened: "@ + m@ + ". Let's try again!"@,
        MilkError::Other(m) => m@,
    }
}

/// The logging category of an error.
pub open spec fn category_spec(e: &MilkError) -> Seq<char> {
    match e {
        MilkError::FileSystem(_)
        | MilkError::InvalidPath(_)
        | MilkError::PermissionDenied(_)
        | MilkError::DiskFull(_)
        | MilkError::CorruptedFile(_) => "FileSystem"@,
        MilkError::AuthenticationFailed(_)
        | MilkError::RateLimitExceeded
        | MilkError::NetworkTimeout(_)
        | MilkError::InvalidResponse(_)
        | MilkError::NetworkError(_) => "Network"@,
        MilkError::UnsupportedFormat(_)
        | MilkError::DecodeError(_)
        | MilkError::AudioDeviceUnavailable => "Playback"@,
        MilkError::InvalidConfig(_)
        | MilkError::ConfigParseError(_)
        | MilkError::MissingConfig(_) => "Configuration"@,
        MilkError::SkinParseError(_)
        | MilkError::InvalidSkinFormat(_)
        | MilkError::MissingSkinAssets(_) => "Skin"@,
        MilkError::MetadataError(_) => "Metadata"@,
        MilkError::PlaylistNotFound(_) | MilkError::InvalidPlaylistOperation(_) => "Playlist"@,
        MilkError::SecureStorageError(_) => "Storage"@,
        MilkError::Internal(_) | MilkError::Other(_) => "General"@,
    }
}

fn prefixed(prefix: &str, mid: &str) -> (r: String)
    ensures
        r@ == prefix@ + mid@,
{
    let mut s = String::from_str(prefix);
    s.append(mid);
    s
}

fn wrapped(prefix: &str, mid: &str, suffix: &str) -> (r: String)
    ensures
        r@ == prefix@ + mid@ + suffix@,
{
    let mut s = String::from_str(prefix);
    s.append(mid);
    s.append(suffix);
    s
}

impl MilkError {
    /// Check if this error is critical (requires user attention).
    pub fn is_critical(&self) -> (r: bool)
        ensures
            r == is_critical_spec(self),
    {
        matches!(
            self,
            MilkError::DiskFull(_)
                | MilkError::PermissionDenied(_)
                | MilkError::AudioDeviceUnavailable
                | MilkError::AuthenticationFailed(_)
        )
    }

    /// Check if this error can be recovered from gracefully.
    pub fn is_recoverable(&self) -> (r: bool)
        ensures
            r == is_recoverable_spec(self),
    {
        matches!(
            self,
            MilkError::NetworkTimeout(_)
                | MilkError::RateLimitExceeded
                | MilkError::CorruptedFile(_)
                | MilkError::SkinParseError(_)
                | MilkError::MetadataError(_)
        )
    }

    /// Get a user-friendly error message suitable for display.
    pub fn user_message(&self) -> (r: String)
        ensures
            r@ == user_message_spec(self),
    {
        match self {
            MilkError::FileSystem(m) => prefixed(
                "Oops! I had trouble accessing a file: ",
                m.as_str(),
            ),
            MilkError::InvalidPath(m) => prefixed("Hmm, I can't find that path: ", m.as_str()),
            MilkError::PermissionDenied(m) => prefixed(
                "I don't have permission to access: ",
                m.as_str(),
            ),
            MilkError::DiskFull(m) => prefixed("Your disk is full! I couldn't save: ", m.as_str()),
            MilkError::CorruptedFile(m) => wrapped(
                "This file seems corrupted: ",
                m.as_str(),
                ". I'll use defaults instead.",
            ),
            MilkError::AuthenticationFailed(m) => wrapped(
                "Authentication failed for ",
                m.as_str(),
                ". Let's try logging in again!",
            ),
            MilkError::RateLimitExceeded => String::from_str(
                "Whoa, slow down! The API rate limit was exceeded. Let's wait a moment.",
            ),
            MilkError::NetworkTimeout(m) => wrapped(
                "Connection to ",
                m.as_str(),
                " timed out. Check your internet connection?",
            ),
            MilkError::InvalidResponse(m) => wrapped(
                "Got an unexpected response: ",
                m.as_str(),
                ". Let's try again.",
            ),
            MilkError::NetworkError(m) => wrapped(
                "Network hiccup: ",
                m.as_str(),
                ". Is your internet working?",
            ),
            MilkError::UnsupportedFormat(m) => wrapped(
                "Sorry, I can't play ",
                m.as_str(),
                " files. Try MP3, FLAC, or WAV!",
            ),
            MilkError::DecodeError(m) => wrapped(
                "Couldn't decode this audio file: ",
                m.as_str(),
                ". It might be corrupted.",
            ),
            MilkError::AudioDeviceUnavailable => String::from_str(
                "No audio device found! Check your speakers or headphones.",
            ),
            MilkError::InvalidConfig(m) => wrapped(
                "Invalid configuration for: ",
                m.as_str(),
                ". I'll use the default.",
            ),
            MilkError::ConfigParseError(_) => String::from_str(
                "Your config file got scrambled. Don't worry, I'll create a fresh one!",
            ),
            MilkError::MissingConfig(m) => wrapped(
                "Missing configuration: ",
                m.as_str(),
                ". Let's set that up!",
            ),
            MilkError::SkinParseError(_) => String::from_str(
                "Couldn't load that skin. I'll use the default look instead!",
            ),
            MilkError::InvalidSkinFormat(m) => wrapped(
                "That's not a valid skin format: ",
                m.as_str(),
                ". Try a .wsz or .wal file!",
            ),
            MilkError::MissingSkinAssets(m) => wrapped(
                "This skin is missing some parts: ",
                m.as_str(),
                ". Using defaults!",
            ),
            MilkError::MetadataError(_) => String::from_str(
                "Couldn't read the song info. I'll guess from the filename!",
            ),
            MilkError::PlaylistNotFound(m) => wrapped(
                "Can't find that playlist: ",
                m.as_str(),
                ". Did you delete it?",
            ),
            MilkError::InvalidPlaylistOperation(m) => wrapped(
                "Oops, can't do that: ",
                m.as_str(),
                ". Try something else!",
            ),
            MilkError::SecureStorageError(_) => String::from_str(
                "Had trouble with secure storage. Your credentials might need re-entry.",
            ),
            MilkError::Internal(m) => wrapped(
                "Something unexpected happened: ",
                m.as_str(),
                ". Let's try again!",
            ),
            MilkError::Other(m) => m.clone(),
        }
    }

    /// Get the error category for logging purposes.
    pub fn category(&self) -> (r: &'static str)
        ensures
            r@ == category_spec(self),
    {
        match self {
            MilkError::FileSystem(_)
            | MilkError::InvalidPath(_)
            | MilkError::PermissionDenied(_)
            | MilkError::DiskFull(_)
            | MilkError::CorruptedFile(_) => "FileSystem",
            MilkError::AuthenticationFailed(_)
            | MilkError::RateLimitExceeded
            | MilkError::NetworkTimeout(_)
            | MilkError::InvalidResponse(_)
            | MilkError::NetworkError(_) => "Network",
            MilkError::UnsupportedFormat(_)
            | MilkError::DecodeError(_)
            | MilkError::AudioDeviceUnavailable => "Playback",
            MilkError::InvalidConfig(_)
            | MilkError::ConfigParseError(_)
            | MilkError::MissingConfig(_) => "Configuration",
            MilkError::SkinParseError(_)
            | MilkError::InvalidSkinFormat(_)
            | MilkError::MissingSkinAssets(_) => "Skin",
            MilkError::MetadataError(_) => "Metadata",
            MilkError::PlaylistNotFound(_) | MilkError::InvalidPlaylistOperation(_) => "Playlist",
            MilkError::SecureStorageError(_) => "Storage",
            MilkError::Internal(_) | MilkError::Other(_) => "General",
        }
    }
}

/// The plain text of an error, one line per kind.
pub open spec fn error_text_spec(e: &MilkError) -> Seq<char> {
    match e {
        MilkError::FileSystem(m) => "File system error: "@ + m@,
        MilkError::InvalidPath(m) => "Invalid path: "@ + m@,
        MilkError::PermissionDenied(m) => "Permission denied: "@ + m@,
        MilkError::DiskFull(m) => "Disk full: unable to save "@ + m@,
        MilkError::CorruptedFile(m) => "Corrupted file: "@ + m@,
        MilkError::AuthenticationFailed(m) => "Authentication failed: "@ + m@,
        MilkError::RateLimitExceeded => "API rate limit exceeded"@,
        MilkError::NetworkTimeout(m) => "Network timeout: "@ + m@,
        MilkError::InvalidResponse(m) => "Invalid API response: "@ + m@,
        MilkError::NetworkError(m) => "Network error: "@ + m@,
        MilkError::UnsupportedFormat(m) => "Unsupported audio format: "@ + m@,
        MilkError::DecodeError(m) => "Audio decode error: "@ + m@,
        MilkError::AudioDeviceUnavailable => "Audio device unavailable"@,
        MilkError::InvalidConfig(m) => "Invalid configuration value: "@ + m@,
        MilkError::ConfigParseError(m) => "Configuration parse error: "@ + m@,
        MilkError::MissingConfig(m) => "Missing required configuration: "@ + m@,
        MilkError::SkinParseError(m) => "Skin parse error: "@ + m@,
        MilkError::InvalidSkinFormat(m) => "Invalid skin format: "@ + m@,
        MilkError::MissingSkinAssets(m) => "Missing skin assets: "@ + m@,
        MilkError::MetadataError(m) => "Metadata extraction failed: "@ + m@,
        MilkError::PlaylistNotFound(m) => "Playlist not found: "@ + m@,
        MilkError::InvalidPlaylistOperation(m) => "Invalid playlist operation: "@ + m@,
        MilkError::SecureStorageError(m) => "Secure storage error: "@ + m@,
        MilkError::Internal(m) => "Internal error: "@ + m@,
        MilkError::Other(m) => m@,
    }
}

impl MilkError {
    /// The plain text of this error, as logs and wrapped errors carry it.
    pub fn error_text(&self) -> (r: String)
        ensures
            r@ == error_text_spec(self),
    {
        match self {
            MilkError::FileSystem(m) => prefixed("File system error: ", m.as_str()),
            MilkError::InvalidPath(m) => prefixed("Invalid path: ", m.as_str()),
            MilkError::PermissionDenied(m) => prefixed("Permission denied: ", m.as_str()),
            MilkError::DiskFull(m) => prefixed("Disk full: unable to save ", m.as_str()),
            MilkError::CorruptedFile(m) => prefixed("Corrupted file: ", m.as_str()),
            MilkError::AuthenticationFailed(m) => prefixed("Authentication failed: ", m.as_str()),
            MilkError::RateLimitExceeded => String::from_str("API rate limit exceeded"),
            MilkError::NetworkTimeout(m) => prefixed("Network timeout: ", m.as_str()),
            MilkError::InvalidResponse(m) => prefixed("Invalid API response: ", m.as_str()),
            MilkError::NetworkError(m) => prefixed("Network error: ", m.as_str()),
            MilkError::UnsupportedFormat(m) => prefixed("Unsupported audio format: ", m.as_str()),
            MilkError::DecodeError(m) => prefixed("Audio decode error: ", m.as_str()),
            MilkError::AudioDeviceUnavailable => String::from_str("Audio device unavailable"),
            MilkError::InvalidConfig(m) => prefixed("Invalid configuration value: ", m.as_str()),
            MilkError::ConfigParseError(m) => prefixed("Configuration parse error: ", m.as_str()),
            MilkError::MissingConfig(m) => prefixed(
                "Missing required configuration: ",
                m.as_str(),
            ),
            MilkError::SkinParseError(m) => prefixed("Skin parse error: ", m.as_str()),
            MilkError::InvalidSkinFormat(m) => prefixed("Invalid skin format: ", m.as_str()),
            MilkError::MissingSkinAssets(m) => prefixed("Missing skin assets: ", m.as_str()),
            MilkError::MetadataError(m) => prefixed("Metadata extraction failed: ", m.as_str()),
            MilkError::PlaylistNotFound(m) => prefixed("Playlist not found: ", m.as_str()),
            MilkError::InvalidPlaylistOperation(m) => prefixed(
                "Invalid playlist operation: ",
                m.as_str(),
            ),
            MilkError::SecureStorageError(m) => prefixed("Secure storage error: ", m.as_str()),
            MilkError::Internal(m) => prefixed("Internal error: ", m.as_str()),
            MilkError::Other(m) => m.clone(),
        }
    }
}

impl MilkError {
    /// Maps a configuration error into the umbrella taxonomy, one
    /// destination per source kind.
    pub fn from_config_error(e: crate::config::ConfigError) -> (r: MilkError)
        ensures
            e matches crate::config::ConfigError::IoError(m) ==> (r matches MilkError::FileSystem(
                n,
            ) && n == m),
            e matches crate::config::ConfigError::SerializationError(m) ==> (
            r matches MilkError::ConfigParseError(n) && n@ == "Serialization error: "@ + m@),
            e is InvalidPath ==> (r matches MilkError::InvalidPath(n) && n@
                == "configuration directory"@),
    {
        match e {
            crate::config::ConfigError::IoError(m) => MilkError::FileSystem(m),
            crate::config::ConfigError::SerializationError(m) => MilkError::ConfigParseError(
                prefixed("Serialization error: ", m.as_str()),
            ),
            crate::config::ConfigError::InvalidPath => MilkError::InvalidPath(
                String::from_str("configuration directory"),
            ),
        }
    }

    /// Maps a metadata-extraction error into the umbrella taxonomy.
    pub fn from_metadata_error(e: crate::metadata::MetadataError) -> (r: MilkError)
        ensures
            e matches crate::metadata::MetadataError::IoError(m) ==> (
            r matches MilkError::FileSystem(n) && n == m),
            e matches crate::metadata::MetadataError::Id3Error(m) ==> (
            r matches MilkError::MetadataError(n) && n == m),
            e matches crate::metadata::MetadataError::FlacError(m) ==> (
            r matches MilkError::MetadataError(n) && n == m),
            e is UnsupportedFormat ==> (r matches MilkError::UnsupportedFormat(n) && n@
                == "unknown"@),
    {
        match e {
            crate::metadata::MetadataError::IoError(m) => MilkError::FileSystem(m),
            crate::metadata::MetadataError::Id3Error(m) => MilkError::MetadataError(m),
            crate::metadata::MetadataError::FlacError(m) => MilkError::MetadataError(m),
            crate::metadata::MetadataError::UnsupportedFormat => MilkError::UnsupportedFormat(
                String::from_str("unknown"),
            ),
        }
    }

    /// Maps a library-scan error into the umbrella taxonomy.
    pub fn from_scan_error(e: crate::library::ScanError) -> (r: MilkError)
        ensures
            e matches crate::library::ScanError::IoError(m) ==> (r matches MilkError::FileSystem(n)
                && n == m),
            e is InvalidPath ==> (r matches MilkError::InvalidPath(n) && n@
                == "library directory"@),
    {
        match e {
            crate::library::ScanError::IoError(m) => MilkError::FileSystem(m),
            crate::library::ScanError::InvalidPath => MilkError::InvalidPath(
                String::from_str("library directory"),
            ),
        }
    }

    /// Maps a skin error into the umbrella taxonomy.
    pub fn from_skin_error(e: crate::skin::SkinError) -> (r: MilkError)
        ensures
            e matches crate::skin::SkinError::IoError(m) ==> (r matches MilkError::FileSystem(n)
                && n == m),
            e matches crate::skin::SkinError::ZipError(m) ==> (r matches MilkError::SkinParseError(
                n,
            ) && n == m),
            e matches crate::skin::SkinError::ImageError(m) ==> (
            r matches MilkError::SkinParseError(n) && n == m),
            e matches crate::skin::SkinError::InvalidFormat(m) ==> (
            r matches MilkError::InvalidSkinFormat(n) && n == m),
            e matches crate::skin::SkinError::MissingAsset(m) ==> (
            r matches MilkError::MissingSkinAssets(n) && n == m),
    {
        match e {
            crate::skin::SkinError::IoError(m) => MilkError::FileSystem(m),
            crate::skin::SkinError::ZipError(m) => MilkError::SkinParseError(m),
            crate::skin::SkinError::ImageError(m) => MilkError::SkinParseError(m),
            crate::skin::SkinError::InvalidFormat(m) => MilkError::InvalidSkinFormat(m),
            crate::skin::SkinError::MissingAsset(m) => MilkError::MissingSkinAssets(m),
        }
    }

    /// Maps a playlist error into the umbrella taxonomy.
    pub fn from_playlist_error(e: crate::playlist::PlaylistError) -> (r: MilkError)
        ensures
            e matches crate::playlist::PlaylistError::Io(m) ==> (r matches MilkError::FileSystem(n)
                && n == m),
            e matches crate::playlist::PlaylistError::Serialization(_) ==> (
            r matches MilkError::InvalidPlaylistOperation(n) && n@ == "serialization failed"@),
            e matches crate::playlist::PlaylistError::NotFound(m) ==> (
            r matches MilkError::PlaylistNotFound(n) && n == m),
    {
        match e {
            crate::playlist::PlaylistError::Io(m) => MilkError::FileSystem(m),
            crate::playlist::PlaylistError::Serialization(_) => MilkError::InvalidPlaylistOperation(
                String::from_str("serialization failed"),
            ),
            crate::playlist::PlaylistError::NotFound(m) => MilkError::PlaylistNotFound(m),
        }
    }

    /// Maps a vault-layer storage error into the umbrella taxonomy.
    pub fn from_storage_error(e: crate::crypto::StorageError) -> (r: MilkError)
        ensures
            r matches MilkError::SecureStorageError(n) && n@ == crate::token::storage_text_spec(
                &e,
            ),
    {
        MilkError::SecureStorageError(crate::token::storage_text(&e))
    }
}

} // verus!
