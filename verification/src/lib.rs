//! Verified core of a remote-desktop streaming stack.
pub mod allocator;
pub mod args;
pub mod binary64;
pub mod bitrate;
pub mod buffer;
pub mod capture;
pub mod channel;
pub mod channels;
pub mod classifier;
pub mod clipboard;
pub mod controller;
pub mod frame_source;
pub mod gap_detector;
pub mod gcc;
pub mod host;
pub mod input;
pub mod loss_recovery;
pub mod media;
pub mod mode_switch;
pub mod negotiation;
pub mod noise;
pub mod pacer;
pub mod ppm;
pub mod raw;
pub mod raw_audio;
pub mod report;
pub mod sanitize;
pub mod scream;
pub mod session_id;
pub mod shp;
pub mod signaling;
pub mod stats;
pub mod stream;
pub mod text;
pub mod time;
