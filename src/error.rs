//! Failures that end a capture session before it returns records.
use vstd::prelude::*;

verus! {

/// Why a capture session could not start.
#[derive(PartialEq, Eq, Structural, Clone, Copy, Debug)]
pub enum CaptureError {
    /// No interface is both non-loopback and addressed.
    NoUsableInterface,
    /// The system refused a link-layer channel on the chosen interface.
    ChannelOpenError,
}

} // verus!
