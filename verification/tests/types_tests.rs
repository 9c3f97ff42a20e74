use glm_vision_rs::types::{image_mime_type, is_url, video_mime_type, ContentPart, UrlHolder};
use glm_vision_rs::serialize::content_part_json;

#[test]
fn test_image_mime_type() {
    assert_eq!(image_mime_type("png"), Some("image/png"));
    assert_eq!(image_mime_type("jpg"), Some("image/jpeg"));
    assert_eq!(image_mime_type("jpeg"), Some("image/jpeg"));
    assert_eq!(image_mime_type("PNG"), Some("image/png"));
    assert_eq!(image_mime_type("gif"), None);
    assert_eq!(image_mime_type("bmp"), None);
}

#[test]
fn test_video_mime_type() {
    assert_eq!(video_mime_type("mp4"), Some("video/mp4"));
    assert_eq!(video_mime_type("mov"), Some("video/quicktime"));
    assert_eq!(video_mime_type("m4v"), Some("video/x-m4v"));
    assert_eq!(video_mime_type("avi"), Some("video/x-msvideo"));
    assert_eq!(video_mime_type("webm"), Some("video/webm"));
    assert_eq!(video_mime_type("wmv"), Some("video/x-ms-wmv"));
    assert_eq!(video_mime_type("flv"), None);
}

#[test]
fn test_mixed_case_extensions() {
    assert_eq!(image_mime_type("Png"), Some("image/png"));
    assert_eq!(image_mime_type("JpEg"), Some("image/jpeg"));
    assert_eq!(video_mime_type("MP4"), Some("video/mp4"));
    assert_eq!(video_mime_type("WebM"), Some("video/webm"));
}

#[test]
fn test_is_url() {
    assert!(is_url("https://example.com/image.png"));
    assert!(is_url("http://localhost:8080/video.mp4"));
    assert!(!is_url("/home/user/image.png"));
    assert!(!is_url("./relative/path.jpg"));
    assert!(!is_url("ftp://server/file"));
}

#[test]
fn test_content_part_text_serialization() {
    let part = ContentPart::Text {
        text: "hello".to_string(),
    };
    let json: serde_json::Value = serde_json::from_str(&content_part_json(&part)).unwrap();
    assert_eq!(json["type"], "text");
    assert_eq!(json["text"], "hello");
}

#[test]
fn test_content_part_image_url_serialization() {
    let part = ContentPart::ImageUrl {
        image_url: UrlHolder {
            url: "https://example.com/img.png".to_string(),
        },
    };
    let json: serde_json::Value = serde_json::from_str(&content_part_json(&part)).unwrap();
    assert_eq!(json["type"], "image_url");
    assert_eq!(json["image_url"]["url"], "https://example.com/img.png");
}

#[test]
fn test_content_part_video_url_serialization() {
    let part = ContentPart::VideoUrl {
        video_url: UrlHolder {
            url: "data:video/mp4;base64,AAAA".to_string(),
        },
    };
    let json: serde_json::Value = serde_json::from_str(&content_part_json(&part)).unwrap();
    assert_eq!(json["type"], "video_url");
    assert_eq!(json["video_url"]["url"], "data:video/mp4;base64,AAAA");
}

#[test]
fn test_content_part_roundtrip() {
    let part = ContentPart::ImageUrl {
        image_url: UrlHolder {
            url: "https://img.test/a.jpg".to_string(),
        },
    };
    let json = content_part_json(&part);
    let parsed: serde_json::Value = serde_json::from_str(&json).unwrap();
    assert_eq!(parsed["type"], "image_url");
    let rebuilt = ContentPart::ImageUrl {
        image_url: UrlHolder {
            url: parsed["image_url"]["url"].as_str().unwrap().to_string(),
        },
    };
    match rebuilt {
        ContentPart::ImageUrl { image_url } => {
            assert_eq!(image_url.url, "https://img.test/a.jpg");
        }
        _ => panic!("expected ImageUrl variant"),
    }
}
