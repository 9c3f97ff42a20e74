use glm_vision_rs::media::MediaProbe;
use glm_vision_rs::{process_image, process_video, ContentPart, VisionConfig, VisionError};

fn config() -> VisionConfig {
    VisionConfig::new("test-key")
}

#[test]
fn test_process_image_url_passthrough() {
    let part = process_image(
        &config(),
        "https://example.com/img.png",
        &MediaProbe::Missing,
    )
    .unwrap();
    match part {
        ContentPart::ImageUrl { image_url } => {
            assert_eq!(image_url.url, "https://example.com/img.png");
        }
        _ => panic!("expected ImageUrl"),
    }
}

#[test]
fn test_process_video_url_passthrough() {
    let part = process_video(
        &config(),
        "https://example.com/vid.mp4",
        &MediaProbe::Missing,
    )
    .unwrap();
    match part {
        ContentPart::VideoUrl { video_url } => {
            assert_eq!(video_url.url, "https://example.com/vid.mp4");
        }
        _ => panic!("expected VideoUrl"),
    }
}

#[test]
fn test_process_image_file_not_found() {
    let result = process_image(&config(), "/nonexistent/image.png", &MediaProbe::Missing);
    assert!(result.is_err());
    assert!(result.unwrap_err().message().contains("not found"));
}

#[test]
fn test_process_video_file_not_found() {
    let result = process_video(&config(), "/nonexistent/video.mp4", &MediaProbe::Missing);
    assert!(result.is_err());
    assert!(result.unwrap_err().message().contains("not found"));
}

#[test]
fn test_process_image_local_file() {
    let bytes = b"fake-png-data".to_vec();
    let probe = MediaProbe::Found {
        len: bytes.len() as u64,
        bytes,
    };
    let part = process_image(&config(), "/tmp/media/test.png", &probe).unwrap();
    match part {
        ContentPart::ImageUrl { image_url } => {
            assert!(image_url.url.starts_with("data:image/png;base64,"));
        }
        _ => panic!("expected ImageUrl with data URL"),
    }
}

#[test]
fn test_process_video_local_file() {
    let bytes = b"fake-mp4-data".to_vec();
    let probe = MediaProbe::Found {
        len: bytes.len() as u64,
        bytes,
    };
    let part = process_video(&config(), "/tmp/media/test.mp4", &probe).unwrap();
    match part {
        ContentPart::VideoUrl { video_url } => {
            assert!(video_url.url.starts_with("data:video/mp4;base64,"));
        }
        _ => panic!("expected VideoUrl with data URL"),
    }
}

#[test]
fn test_process_image_unsupported_format() {
    let probe = MediaProbe::Found {
        len: 8,
        bytes: b"fake-gif".to_vec(),
    };
    let result = process_image(&config(), "/tmp/media/test.gif", &probe);
    assert!(result.is_err());
    assert!(result.unwrap_err().message().contains("Unsupported"));
}

#[test]
fn test_image_size_limit() {
    // 6 whole megabytes exceeds the 5 MB default ceiling.
    let probe = MediaProbe::Found {
        len: 6 * 1048576,
        bytes: b"tiny".to_vec(),
    };
    let result = process_image(&config(), "/tmp/big.png", &probe);
    match result {
        Err(VisionError::TooLarge {
            size_mb, max_mb, ..
        }) => {
            assert_eq!(size_mb, 6);
            assert_eq!(max_mb, 5);
        }
        other => panic!("expected TooLarge, got {:?}", other),
    }

    // Strictly under the ceiling: 5_000_000 bytes truncates to 4 MB.
    let probe = MediaProbe::Found {
        len: 5_000_000,
        bytes: b"tiny".to_vec(),
    };
    assert!(process_image(&config(), "/tmp/ok.png", &probe).is_ok());
}

#[test]
fn test_video_size_limit() {
    let probe = MediaProbe::Found {
        len: 9 * 1048576,
        bytes: b"tiny".to_vec(),
    };
    let result = process_video(&config(), "/tmp/big.mp4", &probe);
    match result {
        Err(VisionError::TooLarge {
            size_mb, max_mb, ..
        }) => {
            assert_eq!(size_mb, 9);
            assert_eq!(max_mb, 8);
            let msg = VisionError::TooLarge {
                kind: glm_vision_rs::MediaKind::Video,
                size_mb,
                max_mb,
            }
            .message();
            assert_eq!(msg, "Video file too large: 9MB (max 8MB)");
        }
        other => panic!("expected TooLarge, got {:?}", other),
    }
}

#[test]
fn test_data_url_roundtrip() {
    let original: Vec<u8> = vec![0, 1, 2, 250, 251, 252, 253, 254, 255, 10, 13];
    let probe = MediaProbe::Found {
        len: original.len() as u64,
        bytes: original.clone(),
    };
    let part = process_image(&config(), "photo.jpg", &probe).unwrap();
    let url = match part {
        ContentPart::ImageUrl { image_url } => image_url.url,
        _ => panic!("expected ImageUrl"),
    };
    let prefix = "data:image/jpeg;base64,";
    assert!(url.starts_with(prefix));
    let payload = &url[prefix.len()..];
    let decoded =
        base64::Engine::decode(&base64::engine::general_purpose::STANDARD, payload).unwrap();
    assert_eq!(decoded, original);
}

#[test]
fn test_unsupported_gif_scenario() {
    // An existing, small local file with a .gif extension must be rejected
    // by the encoder itself, before anything could reach a network.
    let probe = MediaProbe::Found {
        len: 1000,
        bytes: vec![71, 73, 70, 56, 57, 97],
    };
    let result = process_image(&config(), "/tmp/x.gif", &probe);
    let err = result.unwrap_err();
    assert!(matches!(err, VisionError::UnsupportedFormat { .. }));
    assert!(err.message().contains(".gif"));
}
