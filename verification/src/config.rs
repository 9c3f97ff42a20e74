//! Client configuration: known providers, defaults, builder-style setters,
//! and the derivation of the completions endpoint from the base URL.
use vstd::prelude::*;

verus! {

/// Known API providers for the vision endpoint. Each maps to a fixed base
/// URL; an explicit custom URL always overrides a preset.
#[derive(Debug, Clone, Copy, PartialEq, Eq, Structural)]
pub enum Provider {
    /// Zhipu Open Platform.
    Zhipu,
    /// Z.AI API.
    Zai,
    /// Z.AI Coding Plan.
    ZaiCoding,
}

/// The base URL of each provider.
pub open spec fn spec_provider_url(p: Provider) -> Seq<char> {
    match p {
        Provider::Zhipu => "https://open.bigmodel.cn/api/paas/v4/"@,
        Provider::Zai => "https://api.z.ai/api/paas/v4/"@,
        Provider::ZaiCoding => "https://api.z.ai/api/coding/paas/v4/"@,
    }
}

impl Provider {
    /// Returns the base URL for this provider.
    pub fn base_url(&self) -> (r: &'static str)
        ensures
            r@ == spec_provider_url(*self),
    {
        match self {
            Provider::Zhipu => "https://open.bigmodel.cn/api/paas/v4/",
            Provider::Zai => "https://api.z.ai/api/paas/v4/",
            Provider::ZaiCoding => "https://api.z.ai/api/coding/paas/v4/",
        }
    }
}

/// Configuration for the vision client. `temperature` and `top_p` are held
/// in hundredths of a unit (80 means 0.8).
#[derive(Debug, Clone)]
pub struct VisionConfig {
    /// Vision model name (default: "glm-4.6v").
    pub model: String,
    /// API base URL; empty until set through `with_provider` or
    /// `with_base_url`.
    pub base_url: String,
    /// API key (required).
    pub api_key: String,
    /// Sampling temperature in hundredths (default: 80, i.e. 0.8).
    pub temperature: u32,
    /// Top-p sampling in hundredths (default: 60, i.e. 0.6).
    pub top_p: u32,
    /// Maximum tokens in the response (default: 32768).
    pub max_tokens: u32,
    /// Request timeout in seconds (default: 300).
    pub timeout_secs: u64,
    /// Maximum image file size in MB (default: 5).
    pub max_image_size_mb: u64,
    /// Maximum video file size in MB (default: 8).
    pub max_video_size_mb: u64,
    /// Enable thinking/reasoning mode (default: true).
    pub thinking_enabled: bool,
}

/// Removes every trailing '/' of `s`.
pub open spec fn spec_trim_trailing_slashes(s: Seq<char>) -> Seq<char>
    decreases s.len(),
{
    if s.len() > 0 && s.last() == '/' {
        spec_trim_trailing_slashes(s.drop_last())
    } else {
        s
    }
}

/// The completions endpoint: the base URL with trailing slashes removed,
/// followed by the fixed path suffix.
pub open spec fn spec_completions_url(base: Seq<char>) -> Seq<char> {
    spec_trim_trailing_slashes(base) + "/chat/completions"@
}

impl VisionConfig {
    /// Create a configuration with the given API key and every other option
    /// at its default. The base URL starts empty and must be set before a
    /// request is sent.
    pub fn new(api_key: &str) -> (r: VisionConfig)
        ensures
            r.api_key@ == api_key@,
            r.model@ == "glm-4.6v"@,
            r.base_url@ == Seq::<char>::empty(),
            r.temperature == 80u32,
            r.top_p == 60u32,
            r.max_tokens == 32768u32,
            r.timeout_secs == 300u64,
            r.max_image_size_mb == 5u64,
            r.max_video_size_mb == 8u64,
            r.thinking_enabled == true,
    {
        VisionConfig {
            model: "glm-4.6v".to_owned(),
            base_url: String::new(),
            api_key: api_key.to_owned(),
            temperature: 80,
            top_p: 60,
            max_tokens: 32768,
            timeout_secs: 300,
            max_image_size_mb: 5,
            max_video_size_mb: 8,
            thinking_enabled: true,
        }
    }

    /// Set the provider, which sets the base URL.
    pub fn with_provider(self, provider: Provider) -> (r: VisionConfig)
        ensures
            r == (VisionConfig { base_url: r.base_url, ..self }),
            r.base_url@ == spec_provider_url(provider),
    {
        VisionConfig { base_url: provider.base_url().to_owned(), ..self }
    }

    /// Set a custom base URL (overrides any provider preset).
    pub fn with_base_url(self, url: &str) -> (r: VisionConfig)
        ensures
            r == (VisionConfig { base_url: r.base_url, ..self }),
            r.base_url@ == url@,
    {
        VisionConfig { base_url: url.to_owned(), ..self }
    }

    /// Set the model name.
    pub fn with_model(self, model: &str) -> (r: VisionConfig)
        ensures
            r == (VisionConfig { model: r.model, ..self }),
            r.model@ == model@,
    {
        VisionConfig { model: model.to_owned(), ..self }
    }

    /// Set the sampling temperature, in hundredths of a unit.
    pub fn with_temperature(self, temperature: u32) -> (r: VisionConfig)
        ensures
            r == (VisionConfig { temperature, ..self }),
    {
        VisionConfig { temperature, ..self }
    }

    /// Set thinking mode on or off.
    pub fn with_thinking(self, enabled: bool) -> (r: VisionConfig)
        ensures
            r == (VisionConfig { thinking_enabled: enabled, ..self }),
    {
        VisionConfig { thinking_enabled: enabled, ..self }
    }

    /// Returns the full chat completions URL.
    pub fn completions_url(&self) -> (r: String)
        ensures
            r@ == spec_completions_url(self.base_url@),
    {
        let s = self.base_url.as_str();
        let mut end = s.unicode_len();
        proof {
            assert(s@.subrange(0, end as int) =~= s@);
        }
        while end > 0 && s.get_char(end - 1) == '/'
            invariant
                end <= s@.len(),
                s@ == self.base_url@,
                spec_trim_trailing_slashes(self.base_url@) == spec_trim_trailing_slashes(
                    s@.subrange(0, end as int),
                ),
            decreases end,
        {
            proof {
                assert(s@.subrange(0, end as int).drop_last() =~= s@.subrange(0, end - 1));
            }
            end -= 1;
        }
        let prefix = s.substring_char(0, end);
        let mut out = prefix.to_owned();
        out.append("/chat/completions");
        proof {
            assert(out@ =~= spec_completions_url(self.base_url@));
        }
        out
    }
}

} // verus!
