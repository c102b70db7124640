//! Control logic of a local screen recorder: the recording state machine,
//! the media pipeline descriptions it launches, the segment bookkeeping of a
//! recording session and the small text formats of its HTTP interface.
//!
//! - `control`: the shared recorder state and the control requests.
//! - `session`: the task that runs one recording, segment by segment.
//! - `pipeline`: the GStreamer pipeline descriptions, file names and the
//!   ffmpeg join.
//! - `capture`: the capture's cursor setting, preview size and preview stream.
//! - `devices`: the microphone list and the monitor of the default sink.
//! - `assets`: which embedded asset a request gets, and its media type.
//! - `decimal`, `text`: integer rendering and text helpers.

pub mod assets;
pub mod capture;
pub mod control;
pub mod decimal;
pub mod devices;
pub mod pipeline;
pub mod session;
pub mod text;
