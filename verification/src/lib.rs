//! Live frame acquisition engine.
//!
//! Continuously acquires still frames from a video source (network stream or
//! looped video file) by supervising an external decoder process, demuxing its
//! raw output into discrete frames, and keeping the freshest frames in a small
//! bounded buffer. One-shot captures go through a retry policy with failure
//! classification; finite media loops back to the first frame at end of media.

pub mod classify;
pub mod cursor;
pub mod demux;
pub mod diagnostics;
pub mod encoding;
pub mod errors;
pub mod reader;
pub mod retry;
pub mod ring;
pub mod session;
pub mod source;
pub mod supervisor;
pub mod text;

pub use classify::classify_diagnostic;
pub use cursor::PlaybackCursor;
pub use diagnostics::DiagStage;
pub use diagnostics::DiagnosticReport;
pub use diagnostics::DiagnosticsPipeline;
pub use diagnostics::Recommendation;
pub use encoding::decode_frame_payload;
pub use encoding::encode_frame;
pub use demux::extract;
pub use errors::ErrorCategory;
pub use retry::next_action;
pub use retry::run_attempts;
pub use retry::AttemptOutcome;
pub use retry::CaptureFailure;
pub use retry::CaptureResult;
pub use retry::RetryDecision;
pub use retry::MAX_ATTEMPTS;
pub use retry::RETRY_DELAY_MS;
pub use reader::ReadEvent;
pub use reader::ReaderLoop;
pub use reader::ReaderState;
pub use ring::FrameBuffer;
pub use ring::FRAME_CAPACITY;
pub use session::CaptureSession;
pub use source::auth_placement;
pub use source::classify_source;
pub use source::embed_stream_credentials;
pub use source::AuthPlacement;
pub use source::CameraSource;
pub use source::DiscoveredCamera;
pub use supervisor::get_ffmpeg_path;
pub use supervisor::DecoderInvocation;
pub use supervisor::OutputProfile;
pub use supervisor::CAPTURE_QUALITY;
pub use supervisor::OUTPUT_WIDTH_CAP;
pub use supervisor::PERSISTENT_FRAME_RATE;
pub use supervisor::STREAM_TIMEOUT_US;
