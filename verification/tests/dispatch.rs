use frame_engine::classify_diagnostic;
use frame_engine::classify_source;
use frame_engine::get_ffmpeg_path;
use frame_engine::CameraSource;
use frame_engine::DecoderInvocation;
use frame_engine::ErrorCategory;
use frame_engine::OutputProfile;
use frame_engine::CAPTURE_QUALITY;
use frame_engine::OUTPUT_WIDTH_CAP;
use frame_engine::PERSISTENT_FRAME_RATE;
use frame_engine::STREAM_TIMEOUT_US;

#[test]
fn classify_connection_refused() {
    let c = classify_diagnostic("rtsp://10.0.0.9:554/live: Connection refused");
    assert_eq!(c, ErrorCategory::TransportUnreachable);
}

#[test]
fn classify_timeout() {
    let c = classify_diagnostic("Operation timed out while opening stream");
    assert_eq!(c, ErrorCategory::Timeout);
}

#[test]
fn classify_unauthorized() {
    assert_eq!(
        classify_diagnostic("Server returned 401 Unauthorized (authorization failed)"),
        ErrorCategory::AuthenticationFailed
    );
    assert_eq!(
        classify_diagnostic("Unauthorized"),
        ErrorCategory::AuthenticationFailed
    );
}

#[test]
fn classify_unrecognized_falls_back_to_stream_failure() {
    assert_eq!(
        classify_diagnostic("moov atom not found"),
        ErrorCategory::StreamUnavailable
    );
    assert_eq!(classify_diagnostic(""), ErrorCategory::StreamUnavailable);
}

#[test]
fn classify_refused_takes_precedence_over_timeout() {
    assert_eq!(
        classify_diagnostic("Connection refused after connect timed out"),
        ErrorCategory::TransportUnreachable
    );
}

#[test]
fn source_rtsp_url_is_streaming() {
    match classify_source("rtsp://192.168.1.100:554/live") {
        CameraSource::Rtsp(u) => assert_eq!(u, "rtsp://192.168.1.100:554/live"),
        CameraSource::VideoFile { .. } => panic!("expected a stream"),
    }
}

#[test]
fn source_video_extensions_are_finite_media() {
    for url in ["a.mp4", "b.avi", "c.mov", "d.mkv"] {
        match classify_source(url) {
            CameraSource::VideoFile { path, current_frame } => {
                assert_eq!(path, url);
                assert_eq!(current_frame, 0);
            }
            CameraSource::Rtsp(_) => panic!("expected a video file"),
        }
    }
}

#[test]
fn source_file_url_prefix_is_stripped() {
    match classify_source("file:///videos/sample.mp4") {
        CameraSource::VideoFile { path, current_frame } => {
            assert_eq!(path, "/videos/sample.mp4");
            assert_eq!(current_frame, 0);
        }
        CameraSource::Rtsp(_) => panic!("expected a video file"),
    }
}

#[test]
fn source_unrecognized_defaults_to_streaming() {
    match classify_source("http://example.test/stream") {
        CameraSource::Rtsp(u) => assert_eq!(u, "http://example.test/stream"),
        CameraSource::VideoFile { .. } => panic!("expected the stream fallback"),
    }
}

#[test]
fn invocation_streaming_one_shot() {
    let source = CameraSource::Rtsp("rtsp://cam/live".to_string());
    let inv = DecoderInvocation::build(&source, OutputProfile::OneShot);
    assert_eq!(inv.input, "rtsp://cam/live");
    assert!(inv.force_tcp);
    assert_eq!(inv.timeout_us, Some(STREAM_TIMEOUT_US));
    assert!(!inv.loop_playback);
    assert_eq!(inv.frame_rate, None);
    assert_eq!(inv.width_cap, Some(OUTPUT_WIDTH_CAP));
    assert_eq!(inv.quality, CAPTURE_QUALITY);
    assert_eq!(inv.frame_limit, Some(1));
    assert_eq!(inv.frame_index, None);
}

#[test]
fn invocation_streaming_persistent_reduces_rate() {
    let source = CameraSource::Rtsp("rtsp://cam/live".to_string());
    let inv = DecoderInvocation::build(&source, OutputProfile::Persistent);
    assert!(inv.force_tcp);
    assert_eq!(inv.frame_rate, Some(PERSISTENT_FRAME_RATE));
    assert_eq!(inv.frame_limit, None);
    assert!(!inv.loop_playback);
}

#[test]
fn invocation_file_one_shot_extracts_cursor_frame() {
    let source = CameraSource::VideoFile { path: "/v/a.mp4".to_string(), current_frame: 7 };
    let inv = DecoderInvocation::build(&source, OutputProfile::OneShot);
    assert_eq!(inv.input, "/v/a.mp4");
    assert!(!inv.force_tcp);
    assert_eq!(inv.timeout_us, None);
    assert!(!inv.loop_playback);
    assert_eq!(inv.frame_index, Some(7));
    assert_eq!(inv.frame_limit, Some(1));
}

#[test]
fn invocation_file_persistent_loops() {
    let source = CameraSource::VideoFile { path: "/v/a.mp4".to_string(), current_frame: 0 };
    let inv = DecoderInvocation::build(&source, OutputProfile::Persistent);
    assert!(inv.loop_playback);
    assert_eq!(inv.frame_index, None);
    assert_eq!(inv.frame_rate, Some(PERSISTENT_FRAME_RATE));
}

#[test]
fn decoder_path_prefers_known_locations() {
    assert_eq!(get_ffmpeg_path(true, true), "/opt/homebrew/bin/ffmpeg");
    assert_eq!(get_ffmpeg_path(true, false), "/opt/homebrew/bin/ffmpeg");
    assert_eq!(get_ffmpeg_path(false, true), "/usr/local/bin/ffmpeg");
    assert_eq!(get_ffmpeg_path(false, false), "ffmpeg");
}
