use camera_pipeline::messages::webrtc_usage_hint;
use camera_pipeline::types::{
    PipelineError, VideoEncodeType, VideoSourceGst, VideoSourceGstType, VideoSourceLocal, VideoSourceType,
};

#[test]
fn redirect_message() {
    assert_eq!(
        PipelineError::RedirectSource.message(),
        "Error: Cannot create a pipeline from a REDIRECT source!"
    );
}

#[test]
fn encode_message() {
    assert_eq!(
        PipelineError::UnsupportedEncode(VideoEncodeType::MJPG).message(),
        "Unsupported VideoEncodeType: MJPG"
    );
    assert_eq!(
        PipelineError::UnsupportedEncode(VideoEncodeType::Unknown("VP8".to_string())).message(),
        "Unsupported VideoEncodeType: Unknown(\n    \"VP8\",\n)"
    );
}

#[test]
fn source_messages() {
    let local = VideoSourceLocal { name: "Camera".to_string(), device_path: "/dev/video0".to_string() };
    let source = VideoSourceType::Local(local.clone());
    let message = PipelineError::UnsupportedSourceType(source.clone()).message();
    assert_eq!(message, format!("Unsupported VideoSourceType: {source:#?}."));
    assert!(message.starts_with("Unsupported VideoSourceType: Local(") && message.ends_with('.'));
    let gst = VideoSourceGst { name: "gst".to_string(), source: VideoSourceGstType::Local(local) };
    let message = PipelineError::UnsupportedGstSource(gst.clone()).message();
    assert_eq!(message, format!("Unsupported GST source endpoint: {gst:#?}"));
}

#[test]
fn webrtc_scheme_message() {
    let message = PipelineError::UnsupportedWebrtcScheme("udp".to_string()).message();
    assert_eq!(
        message,
        format!(
            "Only 'webrtc://', 'stun://', 'turn://' and 'ws://' schemes are accepted. {}. The scheme passed was: \"udp\"\"",
            webrtc_usage_hint()
        )
    );
    let odd = PipelineError::UnsupportedWebrtcScheme("a\"b".to_string()).message();
    assert!(odd.ends_with("The scheme passed was: \"a\\\"b\"\""));
}

#[test]
fn invalid_endpoint_message() {
    assert_eq!(PipelineError::InvalidEndpoint.message(), "Invalid endpoint URL");
}

#[test]
fn escaped_scheme_message() {
    let message = PipelineError::UnsupportedWebrtcScheme("a\\b\n".to_string()).message();
    assert!(message.ends_with("The scheme passed was: \"a\\\\b\\n\"\""));
}

#[test]
fn messages_render_sources_as_debug_does() {
    let sources = vec![
        VideoSourceType::Gst(VideoSourceGst {
            name: "Fake \"ball\" source".to_string(),
            source: VideoSourceGstType::Fake("ball".to_string()),
        }),
        VideoSourceType::Gst(VideoSourceGst {
            name: "gst".to_string(),
            source: VideoSourceGstType::Local(VideoSourceLocal {
                name: "Câmera 1".to_string(),
                device_path: "/dev/video0".to_string(),
            }),
        }),
        VideoSourceType::Redirect(camera_pipeline::types::VideoSourceRedirect {
            name: "it's\telsewhere".to_string(),
        }),
    ];
    for source in sources {
        assert_eq!(
            PipelineError::UnsupportedSourceType(source.clone()).message(),
            format!("Unsupported VideoSourceType: {source:#?}.")
        );
        if let VideoSourceType::Gst(gst) = source {
            assert_eq!(
                PipelineError::UnsupportedGstSource(gst.clone()).message(),
                format!("Unsupported GST source endpoint: {gst:#?}")
            );
        }
    }
    for encode in [
        VideoEncodeType::H265,
        VideoEncodeType::H264,
        VideoEncodeType::MJPG,
        VideoEncodeType::YUYV,
        VideoEncodeType::Unknown("a\\b".to_string()),
    ] {
        assert_eq!(
            PipelineError::UnsupportedEncode(encode.clone()).message(),
            format!("Unsupported VideoEncodeType: {encode:#?}")
        );
    }
}
