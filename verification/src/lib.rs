//! Screen recording over the Chrome DevTools protocol.
//!
//! A recording attaches a session of its own to the page ([`attach`]), captures
//! the frames of a screencast without loss ([`collect`]), and encodes them after
//! the take has ended ([`encode`]); [`task`] puts these in order. The library
//! says what each step is. Sending commands, writing files and running the
//! encoder is left to its caller, who performs each step and hands back what came
//! of it. The caller also hands in the number of slots that a video fills and the
//! time of each slot.

pub mod attach;
pub mod collect;
pub mod command;
pub mod encode;
pub mod ffmpeg;
pub mod json;
pub mod schedule;
pub mod session;
pub mod state;
pub mod task;
pub mod text;

pub use ffmpeg::build_ffmpeg_command;
pub use session::{owns_attachment, CaptureSession, SharedCaptureSession};
pub use state::{
    recording_start, recording_stop, validate_fps, RecordingState, DEFAULT_FPS, MAX_FPS,
};
