//! One completion call, split at the transport boundary. Everything before
//! the POST — media encoding, request assembly, serialization, endpoint and
//! headers — and everything after it — status interpretation and response
//! parsing — is verified here; the POST itself and the backoff sleeps are
//! the caller's side, driven by the retry policy of `retry`.
use vstd::prelude::*;

use crate::config::{spec_completions_url, VisionConfig};
use crate::errors::{MediaKind, VisionError};
use crate::http::{interpret_response, request_headers, spec_request_headers, HttpResponse};
use crate::media::{encode_media, spec_encode_outcome, MediaProbe};
use crate::response::{parse_completion, spec_completion_outcome};
use crate::serialize::{build_request, request_to_json, spec_request_json};
use crate::types::{ContentPart, VisionChatRequest, VisionContent};

verus! {

/// Everything the transport needs for one POST, together with the request
/// value it was serialized from.
pub struct PreparedRequest {
    pub url: String,
    pub headers: Vec<(String, String)>,
    pub body: String,
    pub request: VisionChatRequest,
}

/// Processes an image source into a content part: URLs pass through, local
/// files are validated against the configured image size ceiling and
/// embedded as a `data:` URL.
pub fn process_image(config: &VisionConfig, source: &str, probe: &MediaProbe) -> (r: Result<
    ContentPart,
    VisionError,
>)
    requires
        probe matches MediaProbe::Found { bytes, .. } ==> bytes@.len() <= usize::MAX as nat / 2,
    ensures
        spec_encode_outcome(MediaKind::Image, source@, *probe, config.max_image_size_mb, r),
{
    encode_media(MediaKind::Image, source, probe, config.max_image_size_mb)
}

/// Processes a video source into a content part: URLs pass through, local
/// files are validated against the configured video size ceiling and
/// embedded as a `data:` URL.
pub fn process_video(config: &VisionConfig, source: &str, probe: &MediaProbe) -> (r: Result<
    ContentPart,
    VisionError,
>)
    requires
        probe matches MediaProbe::Found { bytes, .. } ==> bytes@.len() <= usize::MAX as nat / 2,
    ensures
        spec_encode_outcome(MediaKind::Video, source@, *probe, config.max_video_size_mb, r),
{
    encode_media(MediaKind::Video, source, probe, config.max_video_size_mb)
}

/// Assembles and serializes one request: the endpoint derived from the base
/// URL, the four fixed headers, and the JSON body serialized from the
/// request that `build_request` shapes out of the prompts and parts.
pub fn prepare_request(
    system_prompt: &str,
    content_parts: Vec<ContentPart>,
    user_prompt: &str,
    config: &VisionConfig,
) -> (r: PreparedRequest)
    ensures
        r.url@ == spec_completions_url(config.base_url@),
        r.headers@.map_values(|h: (String, String)| (h.0@, h.1@)) == spec_request_headers(
            config.api_key@,
        ),
        r.body@ == spec_request_json(r.request),
        r.request.model == config.model,
        r.request.messages@.len() == 2,
        r.request.messages@[0].role@ == "system"@,
        r.request.messages@[0].content matches VisionContent::Text(t) && t@ == system_prompt@,
        r.request.messages@[1].role@ == "user"@,
        r.request.messages@[1].content matches VisionContent::Parts(ps) && ps@.len()
            == content_parts@.len() + 1 && (forall|i: int|
            0 <= i < content_parts@.len() ==> ps@[i] == content_parts@[i]) && (ps@.last()
            matches ContentPart::Text { text } && text@ == user_prompt@),
        config.thinking_enabled ==> (r.request.thinking matches Some(t) && t.kind@
            == "enabled"@),
        !config.thinking_enabled ==> r.request.thinking is None,
        r.request.stream == false,
        r.request.temperature == config.temperature,
        r.request.top_p == config.top_p,
        r.request.max_tokens == config.max_tokens,
{
    let request = build_request(system_prompt, content_parts, user_prompt, config);
    let body = request_to_json(&request);
    PreparedRequest {
        url: config.completions_url(),
        headers: request_headers(config.api_key.as_str()),
        body,
        request,
    }
}

/// Reads one attempt's HTTP result: a non-2xx status is an application
/// failure carrying status and body; a 2xx body is parsed and its first
/// choice's text extracted.
pub fn handle_response(resp: &HttpResponse) -> (r: Result<String, VisionError>)
    ensures
        !(200 <= resp.status < 300) ==> (r matches Err(e) && e matches VisionError::ApiError {
            status,
            body,
        } && status == resp.status && body@ == resp.body@),
        200 <= resp.status < 300 ==> spec_completion_outcome(resp.body@, r),
{
    let body = interpret_response(resp)?;
    parse_completion(body.as_str())
}

} // verus!
