//! Typed configuration.  Acquisition (reading environment-style
//! key-value settings) happens outside the library; the library receives
//! the already-typed fields.

use vstd::prelude::*;

verus! {

/// Video encoding parameters.
pub struct VideoSettings {
    pub width: u32,
    pub height: u32,
    pub bitrate: u32,
    pub framerate: u32,
    pub profile: Option<String>,
    /// Accepted but not yet applied to any capability filter.
    pub level: Option<String>,
}

/// Audio encoding parameters.
pub struct AudioSettings {
    pub bitrate: u32,
    pub channels: u32,
    pub sample_rate: u32,
}

/// Optional hardware acceleration for the video encoder.
#[derive(Clone, Copy, PartialEq, Eq, Structural)]
pub enum VideoAcceleration {
    VAAPI,
    V4L2,
}

/// The full configuration of one run.
pub struct Config {
    pub user_id: u32,
    pub channel_id: u32,
    pub playback_server_url: String,
    pub rtmp_url: String,
    pub rtmp_stream_key: String,
    pub audio: AudioSettings,
    pub video: VideoSettings,
    pub video_acceleration: Option<VideoAcceleration>,
}

} // verus!
