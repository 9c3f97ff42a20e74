//! The error taxonomy of the client, the text each error renders to, and the
//! retryability classification used by the retry policy.
use vstd::prelude::*;

use crate::text::{spec_u64_digits, u64_to_string};

verus! {

/// Which kind of media a source was treated as.
#[derive(Debug, Clone, Copy, PartialEq, Eq, Structural)]
pub enum MediaKind {
    Image,
    Video,
}

/// Everything that can go wrong in one completion call, from media
/// validation through transport to response parsing.
#[derive(Debug, PartialEq)]
pub enum VisionError {
    /// A local media path does not exist.
    NotFound { kind: MediaKind, source: String },
    /// A local media file exceeds the configured size ceiling for its kind.
    TooLarge { kind: MediaKind, size_mb: u64, max_mb: u64 },
    /// The file extension is not in the MIME table.
    UnsupportedFormat { kind: MediaKind, ext: String },
    /// Filesystem read or metadata failure other than not-found.
    IoError { detail: String },
    /// The send capability itself failed before any HTTP status was obtained.
    TransportError { detail: String },
    /// The server returned a non-2xx status.
    ApiError { status: u16, body: String },
    /// The response body is not valid JSON of the expected shape.
    ParseError,
    /// The response parsed but carried no usable text.
    MissingContent,
    /// A caller-supplied argument was rejected.
    InvalidArgument { detail: String },
}

/// Capitalized name of a media kind, as error messages start with it.
pub open spec fn spec_kind_word(kind: MediaKind) -> Seq<char> {
    match kind {
        MediaKind::Image => "Image"@,
        MediaKind::Video => "Video"@,
    }
}

/// Lower-case name of a media kind.
pub open spec fn spec_kind_lower(kind: MediaKind) -> Seq<char> {
    match kind {
        MediaKind::Image => "image"@,
        MediaKind::Video => "video"@,
    }
}

/// The diagnostic text of each error. The API key never occurs in it: no
/// variant carries the key.
pub open spec fn spec_message(e: VisionError) -> Seq<char> {
    match e {
        VisionError::NotFound { kind, source } => spec_kind_word(kind) + " file not found: "@
            + source@,
        VisionError::TooLarge { kind, size_mb, max_mb } => spec_kind_word(kind)
            + " file too large: "@ + spec_u64_digits(size_mb as nat) + "MB (max "@
            + spec_u64_digits(max_mb as nat) + "MB)"@,
        VisionError::UnsupportedFormat { kind, ext } => "Unsupported "@ + spec_kind_lower(kind)
            + " format: ."@ + ext@,
        VisionError::IoError { detail } => detail@,
        VisionError::TransportError { detail } => "Failed to send vision API request: "@
            + detail@,
        VisionError::ApiError { status, body } => "Vision API error HTTP "@ + spec_u64_digits(
            status as nat,
        ) + ": "@ + body@,
        VisionError::ParseError => "Failed to parse vision API response"@,
        VisionError::MissingContent => "Vision API response missing content"@,
        VisionError::InvalidArgument { detail } => detail@,
    }
}

/// A failure warrants a retry exactly when the server answered with HTTP 429
/// or any 5xx status. Every other failure is fatal.
pub open spec fn spec_retryable(e: VisionError) -> bool {
    match e {
        VisionError::ApiError { status, body: _ } => status == 429 || (500 <= status && status
            < 600),
        _ => false,
    }
}

impl Clone for VisionError {
    /// A clone carries exactly the same variant and fields.
    fn clone(&self) -> (r: Self)
        ensures
            r == *self,
    {
        match self {
            VisionError::NotFound { kind, source } => VisionError::NotFound {
                kind: *kind,
                source: source.clone(),
            },
            VisionError::TooLarge { kind, size_mb, max_mb } => VisionError::TooLarge {
                kind: *kind,
                size_mb: *size_mb,
                max_mb: *max_mb,
            },
            VisionError::UnsupportedFormat { kind, ext } => VisionError::UnsupportedFormat {
                kind: *kind,
                ext: ext.clone(),
            },
            VisionError::IoError { detail } => VisionError::IoError { detail: detail.clone() },
            VisionError::TransportError { detail } => VisionError::TransportError {
                detail: detail.clone(),
            },
            VisionError::ApiError { status, body } => VisionError::ApiError {
                status: *status,
                body: body.clone(),
            },
            VisionError::ParseError => VisionError::ParseError,
            VisionError::MissingContent => VisionError::MissingContent,
            VisionError::InvalidArgument { detail } => VisionError::InvalidArgument {
                detail: detail.clone(),
            },
        }
    }
}

impl VisionError {
    /// Returns the capitalized kind word used at the head of file messages.
    fn kind_word(kind: MediaKind) -> (r: &'static str)
        ensures
            r@ == spec_kind_word(kind),
    {
        match kind {
            MediaKind::Image => "Image",
            MediaKind::Video => "Video",
        }
    }

    /// The diagnostic text of this error.
    pub fn message(&self) -> (r: String)
        ensures
            r@ == spec_message(*self),
    {
        let mut out = String::new();
        match self {
            VisionError::NotFound { kind, source } => {
                out.append(Self::kind_word(*kind));
                out.append(" file not found: ");
                out.append(source.as_str());
            },
            VisionError::TooLarge { kind, size_mb, max_mb } => {
                out.append(Self::kind_word(*kind));
                out.append(" file too large: ");
                let s = u64_to_string(*size_mb);
                out.append(s.as_str());
                out.append("MB (max ");
                let m = u64_to_string(*max_mb);
                out.append(m.as_str());
                out.append("MB)");
            },
            VisionError::UnsupportedFormat { kind, ext } => {
                out.append("Unsupported ");
                match kind {
                    MediaKind::Image => out.append("image"),
                    MediaKind::Video => out.append("video"),
                }
                out.append(" format: .");
                out.append(ext.as_str());
            },
            VisionError::IoError { detail } => {
                out.append(detail.as_str());
            },
            VisionError::TransportError { detail } => {
                out.append("Failed to send vision API request: ");
                out.append(detail.as_str());
            },
            VisionError::ApiError { status, body } => {
                out.append("Vision API error HTTP ");
                let s = u64_to_string(*status as u64);
                out.append(s.as_str());
                out.append(": ");
                out.append(body.as_str());
            },
            VisionError::ParseError => {
                out.append("Failed to parse vision API response");
            },
            VisionError::MissingContent => {
                out.append("Vision API response missing content");
            },
            VisionError::InvalidArgument { detail } => {
                out.append(detail.as_str());
            },
        }
        proof {
            assert(out@ =~= spec_message(*self));
        }
        out
    }

    /// True exactly for the transient server failures that the retry policy
    /// re-attempts: HTTP 429 and HTTP 5xx.
    pub fn is_retryable(&self) -> (r: bool)
        ensures
            r == spec_retryable(*self),
    {
        match self {
            VisionError::ApiError { status, body: _ } => *status == 429 || (500 <= *status
                && *status < 600),
            _ => false,
        }
    }
}

} // verus!

