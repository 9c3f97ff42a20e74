//! Wire-format data types for the chat-completion request and response,
//! together with the media helpers: the extension-to-MIME tables and the
//! URL test that decides whether a media source is remote.
use vstd::prelude::*;

use crate::text::{spec_lower, spec_starts_with, str_eq, str_starts_with, to_ascii_lower};

verus! {

/// Wrapper object carrying a single URL, as the wire format nests it.
#[derive(Debug, Clone)]
pub struct UrlHolder {
    pub url: String,
}

/// One unit of a multimodal user message: plain text, or an image or video
/// reference (either a remote URL or a synthesized `data:` URL).
#[derive(Debug, Clone)]
pub enum ContentPart {
    Text { text: String },
    ImageUrl { image_url: UrlHolder },
    VideoUrl { video_url: UrlHolder },
}

/// The content of one message: plain text for the system message, a list of
/// parts for the user message.
#[derive(Debug, Clone)]
pub enum VisionContent {
    Text(String),
    Parts(Vec<ContentPart>),
}

/// One chat message with its role.
#[derive(Debug, Clone)]
pub struct VisionMessage {
    pub role: String,
    pub content: VisionContent,
}

/// The reasoning-mode marker; serialized as `{"type": <kind>}`.
#[derive(Debug, Clone)]
pub struct ThinkingConfig {
    pub kind: String,
}

/// The outbound chat-completion request. Sampling parameters `temperature`
/// and `top_p` are held in hundredths of a unit (80 means 0.8) and rendered
/// as decimals on the wire.
#[derive(Debug, Clone)]
pub struct VisionChatRequest {
    pub model: String,
    pub messages: Vec<VisionMessage>,
    pub thinking: Option<ThinkingConfig>,
    pub stream: bool,
    pub temperature: u32,
    pub top_p: u32,
    pub max_tokens: u32,
}

/// The message inside one response choice; `content` may be absent.
#[derive(Debug, Clone)]
pub struct VisionChoiceMessage {
    pub content: Option<String>,
}

/// One choice of the response.
#[derive(Debug, Clone)]
pub struct VisionChoice {
    pub message: VisionChoiceMessage,
}

/// The decoded response shape: a list of choices.
#[derive(Debug, Clone)]
pub struct VisionChatResponse {
    pub choices: Vec<VisionChoice>,
}

/// The image extension table: png, jpg and jpeg (already lower-cased).
pub open spec fn spec_image_mime(ext_lower: Seq<char>) -> Option<Seq<char>> {
    if ext_lower == "png"@ {
        Some("image/png"@)
    } else if ext_lower == "jpg"@ || ext_lower == "jpeg"@ {
        Some("image/jpeg"@)
    } else {
        None
    }
}

/// The video extension table: mp4, mov, m4v, avi, webm and wmv (already
/// lower-cased).
pub open spec fn spec_video_mime(ext_lower: Seq<char>) -> Option<Seq<char>> {
    if ext_lower == "mp4"@ {
        Some("video/mp4"@)
    } else if ext_lower == "mov"@ {
        Some("video/quicktime"@)
    } else if ext_lower == "m4v"@ {
        Some("video/x-m4v"@)
    } else if ext_lower == "avi"@ {
        Some("video/x-msvideo"@)
    } else if ext_lower == "webm"@ {
        Some("video/webm"@)
    } else if ext_lower == "wmv"@ {
        Some("video/x-ms-wmv"@)
    } else {
        None
    }
}

/// Returns the MIME type for an image file extension (case-insensitive), or
/// None if the extension is unsupported.
pub fn image_mime_type(ext: &str) -> (r: Option<&'static str>)
    ensures
        match spec_image_mime(spec_lower(ext@)) {
            Some(m) => r matches Some(s) && s@ == m,
            None => r is None,
        },
{
    let lo = to_ascii_lower(ext);
    if str_eq(lo.as_str(), "png") {
        Some("image/png")
    } else if str_eq(lo.as_str(), "jpg") || str_eq(lo.as_str(), "jpeg") {
        Some("image/jpeg")
    } else {
        None
    }
}

/// Returns the MIME type for a video file extension (case-insensitive), or
/// None if the extension is unsupported.
pub fn video_mime_type(ext: &str) -> (r: Option<&'static str>)
    ensures
        match spec_video_mime(spec_lower(ext@)) {
            Some(m) => r matches Some(s) && s@ == m,
            None => r is None,
        },
{
    let lo = to_ascii_lower(ext);
    if str_eq(lo.as_str(), "mp4") {
        Some("video/mp4")
    } else if str_eq(lo.as_str(), "mov") {
        Some("video/quicktime")
    } else if str_eq(lo.as_str(), "m4v") {
        Some("video/x-m4v")
    } else if str_eq(lo.as_str(), "avi") {
        Some("video/x-msvideo")
    } else if str_eq(lo.as_str(), "webm") {
        Some("video/webm")
    } else if str_eq(lo.as_str(), "wmv") {
        Some("video/x-ms-wmv")
    } else {
        None
    }
}

/// A media source counts as remote when it carries an HTTP or HTTPS scheme.
pub open spec fn spec_is_url(s: Seq<char>) -> bool {
    spec_starts_with(s, "http://"@) || spec_starts_with(s, "https://"@)
}

/// Returns true if `source` looks like an HTTP(S) URL.
pub fn is_url(source: &str) -> (r: bool)
    ensures
        r == spec_is_url(source@),
{
    str_starts_with(source, "http://") || str_starts_with(source, "https://")
}

} // verus!
