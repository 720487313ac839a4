//! Snapshot and restore engine for a multi-format desktop clipboard.
//!
//! The clipboard subsystem is driven from outside: each engine is a transition
//! function from a state and an answer of the subsystem to the next state, and
//! the state tells which request to make next.

pub mod capture;
pub mod encoding;
pub mod error;
pub mod format;
pub mod model;
pub mod restore;

pub use capture::{
    get_windows_clipboard_snapshot, CaptureAction, CaptureEvent, CapturePhase, CaptureState,
    CaptureWarning, ReadFailure,
};
pub use encoding::{deserialize, get_format_name, register_format, serialize};
pub use error::{ClipboardError, OpenOutcome};
pub use format::{
    WindowsClipboardFormat, WindowsClipboardSnapshot, CUSTOM_FORMAT_THRESHOLD,
    FORMAT_NAME_CAPACITY,
};
pub use restore::{
    restore_windows_clipboard_snapshot, RestoreAction, RestoreEvent, RestorePhase, RestoreState,
    RestoreWarning, WriteFailure,
};
