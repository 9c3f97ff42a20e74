use glm_vision_rs::client::prepare_request;
use glm_vision_rs::serialize::request_to_json;
use glm_vision_rs::types::{
    ContentPart, ThinkingConfig, UrlHolder, VisionChatRequest, VisionContent, VisionMessage,
};
use glm_vision_rs::{Provider, VisionConfig};

#[test]
fn test_vision_chat_request_serialization() {
    let req = VisionChatRequest {
        model: "glm-4.6v".to_string(),
        messages: vec![
            VisionMessage {
                role: "system".to_string(),
                content: VisionContent::Text("You are a vision assistant.".to_string()),
            },
            VisionMessage {
                role: "user".to_string(),
                content: VisionContent::Parts(vec![
                    ContentPart::ImageUrl {
                        image_url: UrlHolder {
                            url: "https://example.com/img.png".to_string(),
                        },
                    },
                    ContentPart::Text {
                        text: "Describe this image.".to_string(),
                    },
                ]),
            },
        ],
        thinking: Some(ThinkingConfig {
            kind: "enabled".to_string(),
        }),
        stream: false,
        temperature: 80,
        top_p: 60,
        max_tokens: 32768,
    };
    let json: serde_json::Value = serde_json::from_str(&request_to_json(&req)).unwrap();
    assert_eq!(json["model"], "glm-4.6v");
    assert_eq!(json["messages"][0]["role"], "system");
    assert_eq!(json["messages"][1]["content"][0]["type"], "image_url");
    assert_eq!(json["thinking"]["type"], "enabled");
    assert_eq!(json["stream"], false);
}

#[test]
fn test_sampling_parameters_rendered_as_decimals() {
    let config = VisionConfig::new("k").with_provider(Provider::Zai);
    let prepared = prepare_request("sys", vec![], "user", &config);
    let json: serde_json::Value = serde_json::from_str(&prepared.body).unwrap();
    assert_eq!(json["temperature"], 0.8);
    assert_eq!(json["top_p"], 0.6);
    assert_eq!(json["max_tokens"], 32768);

    let config = config.with_temperature(55);
    let prepared = prepare_request("sys", vec![], "user", &config);
    let json: serde_json::Value = serde_json::from_str(&prepared.body).unwrap();
    assert_eq!(json["temperature"], 0.55);

    let config = config.with_temperature(100);
    let prepared = prepare_request("sys", vec![], "user", &config);
    let json: serde_json::Value = serde_json::from_str(&prepared.body).unwrap();
    assert_eq!(json["temperature"], 1.0);
}

#[test]
fn test_thinking_field_omitted_when_disabled() {
    let config = VisionConfig::new("k")
        .with_provider(Provider::Zhipu)
        .with_thinking(false);
    let prepared = prepare_request("sys", vec![], "user", &config);
    assert!(!prepared.body.contains("thinking"));
    let json: serde_json::Value = serde_json::from_str(&prepared.body).unwrap();
    let obj = json.as_object().unwrap();
    assert!(!obj.contains_key("thinking"));
}

#[test]
fn test_thinking_field_present_when_enabled() {
    let config = VisionConfig::new("k")
        .with_provider(Provider::Zhipu)
        .with_thinking(true);
    let prepared = prepare_request("sys", vec![], "user", &config);
    let json: serde_json::Value = serde_json::from_str(&prepared.body).unwrap();
    assert_eq!(json["thinking"]["type"], "enabled");
}

#[test]
fn test_user_text_part_appended_last() {
    let config = VisionConfig::new("k").with_provider(Provider::Zai);
    let parts = vec![ContentPart::ImageUrl {
        image_url: UrlHolder {
            url: "https://example.com/a.png".to_string(),
        },
    }];
    let prepared = prepare_request("sys prompt", parts, "the user prompt", &config);
    let json: serde_json::Value = serde_json::from_str(&prepared.body).unwrap();
    let content = json["messages"][1]["content"].as_array().unwrap();
    assert_eq!(content.len(), 2);
    assert_eq!(content[0]["type"], "image_url");
    assert_eq!(content[1]["type"], "text");
    assert_eq!(content[1]["text"], "the user prompt");
    assert_eq!(json["messages"][0]["content"], "sys prompt");
}

#[test]
fn test_json_escaping_roundtrip() {
    let config = VisionConfig::new("k").with_provider(Provider::Zai);
    let tricky = "a \"quoted\" \\ backslash\nnewline\ttab\rreturn \u{1} control 日本語";
    let prepared = prepare_request(tricky, vec![], tricky, &config);
    let json: serde_json::Value = serde_json::from_str(&prepared.body).unwrap();
    assert_eq!(json["messages"][0]["content"], tricky);
    let content = json["messages"][1]["content"].as_array().unwrap();
    assert_eq!(content[0]["text"], tricky);
}

#[test]
fn test_prepared_request_url_and_headers() {
    let config = VisionConfig::new("secret-key").with_provider(Provider::Zhipu);
    let prepared = prepare_request("sys", vec![], "user", &config);
    assert_eq!(
        prepared.url,
        "https://open.bigmodel.cn/api/paas/v4/chat/completions"
    );
    assert_eq!(prepared.headers.len(), 4);
    assert_eq!(prepared.headers[0].0, "Authorization");
    assert_eq!(prepared.headers[0].1, "Bearer secret-key");
    assert_eq!(prepared.headers[1].0, "Content-Type");
    assert_eq!(prepared.headers[1].1, "application/json");
    assert_eq!(prepared.headers[2].0, "X-Title");
    assert_eq!(prepared.headers[2].1, "4.5V MCP Local");
    assert_eq!(prepared.headers[3].0, "Accept-Language");
    assert_eq!(prepared.headers[3].1, "en-US,en");
}
