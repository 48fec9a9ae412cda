//! Galahad Encoder core: the planning, parsing and supervision logic of a
//! low-latency game / broadcast encoder.

pub mod audio;
pub mod capability;
pub mod capture;
pub mod commands;
pub mod config;
pub mod control_channel;
pub mod control_runtime;
pub mod encoder;
pub mod error;
pub mod ffmpeg;
pub mod gst2110;
pub mod ipv4;
pub mod logger;
pub mod net_info;
pub mod paths;
pub mod pipeline;
pub mod presets;
pub mod preview;
pub mod process_enum;
pub mod srt;
pub mod stream_state;
pub mod text;
pub mod video_device;
pub mod window_enum;
