use vstd::prelude::*;

verus! {

/// Milliseconds to wait after the reset command, and again after the first
/// frame has been discarded.
pub const RESET_SETTLE_MS: u8 = 50;

/// Milliseconds to wait after each frame that is drained.
pub const DRAIN_PAUSE_MS: u8 = 1;

/// How far the start-up handshake has come.
#[derive(Clone, Copy, Debug, PartialEq, Eq, Structural)]
pub enum InitStage {
    /// Nothing has been done yet.
    Start,
    /// The reset command is out; the first frame is still to be discarded.
    Settling,
    /// The frames that the hub sent unasked are being drained; once none is
    /// left the product id is verified.
    Draining,
}

/// What the caller does after a step of the handshake.
#[derive(Clone, Copy, Debug, PartialEq, Eq, Structural)]
pub enum InitStep {
    /// Wait this many milliseconds, then take the step of the given stage.
    Pause(u8, InitStage),
    /// The handshake is over.
    Done,
}

/// The pause owed after draining a frame of `received_len` bytes: none
/// after an empty read, which ends the draining.
pub open spec fn pause_after(received_len: usize) -> Option<u8> {
    if received_len == 0 {
        None
    } else {
        Some(DRAIN_PAUSE_MS)
    }
}

/// Decides from the length of the frame just drained whether draining goes
/// on, and after what pause.
pub fn drain_pause(received_len: usize) -> (pause: Option<u8>)
    ensures
        pause == pause_after(received_len),
{
    if received_len == 0 {
        None
    } else {
        Some(DRAIN_PAUSE_MS)
    }
}

} // verus!
