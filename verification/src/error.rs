use vstd::prelude::*;

verus! {

/// Why a whole operation, or the decoding of a stored payload, failed.
#[derive(Clone, Copy, Debug, PartialEq, Eq)]
pub enum ClipboardError {
    /// Exclusive access to the clipboard was not granted.
    OpenFailed,
    /// The clipboard was opened but its contents could not be cleared.
    ClearFailed,
    /// The host has no clipboard subsystem of the supported kind.
    UnsupportedPlatform,
    /// A stored payload is not well-formed base64 text.
    InvalidPayloadText,
}

/// The subsystem's answer to a request for exclusive access.
#[derive(Clone, Copy, Debug, PartialEq, Eq)]
pub enum OpenOutcome {
    Granted,
    Refused,
    Unsupported,
}

/// The failure that an unsuccessful request for access amounts to.
pub open spec fn open_failure(outcome: OpenOutcome) -> ClipboardError {
    match outcome {
        OpenOutcome::Unsupported => ClipboardError::UnsupportedPlatform,
        _ => ClipboardError::OpenFailed,
    }
}

} // verus!
