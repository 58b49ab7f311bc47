//! Decoder process supervision: building the invocation for the external
//! decoder from source kind and output profile.
//!
//! The decoder is an external program; the embedding spawns it, captures its
//! primary output for frame data and drains its diagnostic stream on a
//! dedicated task. What the engine decides — and what is verified here — is
//! the invocation: transport reliability, timeouts, looping, frame rate,
//! resolution cap, quality and frame count, derived from the source kind and
//! the caller class.

use vstd::prelude::*;

use crate::source::CameraSource;

verus! {

/// Bounded per-connection timeout forced on streaming sources, in
/// microseconds.
pub const STREAM_TIMEOUT_US: u64 = 5000000;

/// Reduced frame rate requested by persistent sessions, favoring low
/// resource cost over freshness.
pub const PERSISTENT_FRAME_RATE: u32 = 5;

/// Fixed output resolution cap: frames are scaled down to this width.
pub const OUTPUT_WIDTH_CAP: u32 = 960;

/// Encoder quality level handed to the decoder (lower is better).
pub const CAPTURE_QUALITY: u8 = 5;

/// The caller class a decoder invocation serves.
#[derive(Clone, Copy, Debug, PartialEq, Eq, Structural)]
pub enum OutputProfile {
    /// A long-lived session continuously drained by a reader loop: reduced
    /// frame rate, capped resolution.
    Persistent,
    /// A single decode-and-exit capture: exactly one frame at the
    /// configured quality.
    OneShot,
}

/// Everything the external decoder is told: the embedding renders this into
/// the actual process arguments.
pub struct DecoderInvocation {
    /// Source URI or file path.
    pub input: String,
    /// Force a connection-oriented transport instead of best-effort
    /// delivery (streaming sources only).
    pub force_tcp: bool,
    /// Bounded per-connection timeout in microseconds, when one applies.
    pub timeout_us: Option<u64>,
    /// Loop playback endlessly (finite media in persistent sessions).
    pub loop_playback: bool,
    /// Reduced target frame rate, when one applies.
    pub frame_rate: Option<u32>,
    /// Output width cap in pixels.
    pub width_cap: Option<u32>,
    /// Encoder quality level (lower is better).
    pub quality: u8,
    /// Capture exactly this many frames, when limited.
    pub frame_limit: Option<u32>,
    /// Zero-based index of the single frame to extract from finite media.
    pub frame_index: Option<u64>,
}

impl DecoderInvocation {
    /// Builds the invocation for `source` under `profile`.
    ///
    /// Streaming sources force the reliable transport and the bounded
    /// connection timeout; finite media in a persistent session loops
    /// endlessly, and in a one-shot capture extracts exactly the frame at
    /// the playback cursor. Persistent sessions reduce the frame rate;
    /// one-shot captures take exactly one frame. All output is capped to
    /// the fixed width at the configured quality.
    pub fn build(source: &CameraSource, profile: OutputProfile) -> (r: DecoderInvocation)
        ensures
            (source matches CameraSource::Rtsp(url) ==> r.input@ == url@ && r.force_tcp
                && r.timeout_us == Some(STREAM_TIMEOUT_US) && !r.loop_playback && r.frame_index
                is None),
            (source matches CameraSource::VideoFile { path, current_frame } ==> r.input@ == path@
                && !r.force_tcp && r.timeout_us is None && (r.loop_playback <==> profile
                == OutputProfile::Persistent) && (profile == OutputProfile::OneShot ==> r.frame_index
                == Some(current_frame as u64)) && (profile == OutputProfile::Persistent
                ==> r.frame_index is None)),
            r.frame_rate == if profile == OutputProfile::Persistent {
                Some(PERSISTENT_FRAME_RATE)
            } else {
                None::<u32>
            },
            r.frame_limit == if profile == OutputProfile::OneShot {
                Some(1u32)
            } else {
                None::<u32>
            },
            r.width_cap == Some(OUTPUT_WIDTH_CAP),
            r.quality == CAPTURE_QUALITY,
    {
        let persistent = match profile {
            OutputProfile::Persistent => true,
            OutputProfile::OneShot => false,
        };
        let frame_rate = if persistent {
            Some(PERSISTENT_FRAME_RATE)
        } else {
            None
        };
        let frame_limit = if persistent {
            None
        } else {
            Some(1u32)
        };
        match source {
            CameraSource::Rtsp(url) => DecoderInvocation {
                input: url.clone(),
                force_tcp: true,
                timeout_us: Some(STREAM_TIMEOUT_US),
                loop_playback: false,
                frame_rate,
                width_cap: Some(OUTPUT_WIDTH_CAP),
                quality: CAPTURE_QUALITY,
                frame_limit,
                frame_index: None,
            },
            CameraSource::VideoFile { path, current_frame } => DecoderInvocation {
                input: path.clone(),
                force_tcp: false,
                timeout_us: None,
                loop_playback: persistent,
                frame_rate,
                width_cap: Some(OUTPUT_WIDTH_CAP),
                quality: CAPTURE_QUALITY,
                frame_limit,
                frame_index: if persistent {
                    None
                } else {
                    Some(*current_frame as u64)
                },
            },
        }
    }
}

/// Resolves the decoder binary location. The embedding reports which of the
/// two well-known install locations exist on disk; the first existing one
/// wins, and the bare name falls back to the search path.
pub fn get_ffmpeg_path(homebrew_exists: bool, usr_local_exists: bool) -> (p: &'static str)
    ensures
        homebrew_exists ==> p@ == "/opt/homebrew/bin/ffmpeg"@,
        !homebrew_exists && usr_local_exists ==> p@ == "/usr/local/bin/ffmpeg"@,
        !homebrew_exists && !usr_local_exists ==> p@ == "ffmpeg"@,
{
    if homebrew_exists {
        "/opt/homebrew/bin/ffmpeg"
    } else if usr_local_exists {
        "/usr/local/bin/ffmpeg"
    } else {
        "ffmpeg"
    }
}

} // verus!
