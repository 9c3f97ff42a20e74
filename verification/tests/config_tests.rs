use glm_vision_rs::{Provider, VisionConfig};

#[test]
fn test_new_config_defaults() {
    let config = VisionConfig::new("test-key");
    assert_eq!(config.api_key, "test-key");
    assert_eq!(config.model, "glm-4.6v");
    assert!(config.base_url.is_empty());
    assert_eq!(config.temperature, 80);
    assert_eq!(config.top_p, 60);
    assert_eq!(config.max_tokens, 32768);
    assert_eq!(config.timeout_secs, 300);
    assert_eq!(config.max_image_size_mb, 5);
    assert_eq!(config.max_video_size_mb, 8);
    assert!(config.thinking_enabled);
}

#[test]
fn test_provider_urls() {
    assert_eq!(
        Provider::Zhipu.base_url(),
        "https://open.bigmodel.cn/api/paas/v4/"
    );
    assert_eq!(Provider::Zai.base_url(), "https://api.z.ai/api/paas/v4/");
    assert_eq!(
        Provider::ZaiCoding.base_url(),
        "https://api.z.ai/api/coding/paas/v4/"
    );
}

#[test]
fn test_with_provider() {
    let config = VisionConfig::new("key").with_provider(Provider::ZaiCoding);
    assert_eq!(config.base_url, "https://api.z.ai/api/coding/paas/v4/");
}

#[test]
fn test_base_url_overrides_provider() {
    let config = VisionConfig::new("key")
        .with_provider(Provider::Zhipu)
        .with_base_url("https://custom.example.com/v1/");
    assert_eq!(config.base_url, "https://custom.example.com/v1/");
}

#[test]
fn test_builder_methods() {
    let config = VisionConfig::new("key")
        .with_provider(Provider::Zai)
        .with_model("glm-4.7v")
        .with_temperature(50)
        .with_thinking(false);
    assert_eq!(config.base_url, "https://api.z.ai/api/paas/v4/");
    assert_eq!(config.model, "glm-4.7v");
    assert_eq!(config.temperature, 50);
    assert!(!config.thinking_enabled);
}

#[test]
fn test_completions_url() {
    let config = VisionConfig::new("key").with_provider(Provider::Zhipu);
    assert!(config.completions_url().ends_with("/chat/completions"));

    let config2 = VisionConfig::new("key").with_base_url("https://api.z.ai/api/paas/v4");
    assert_eq!(
        config2.completions_url(),
        "https://api.z.ai/api/paas/v4/chat/completions"
    );
}

#[test]
fn test_completions_url_trims_all_trailing_slashes() {
    let config = VisionConfig::new("key").with_base_url("https://host/api///");
    assert_eq!(config.completions_url(), "https://host/api/chat/completions");
}
