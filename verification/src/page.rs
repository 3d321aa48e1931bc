//! The settings window: whether it stays on screen, and when its settings
//! are stored.

use vstd::prelude::*;

verus! {

/// What becomes of the settings window after a frame.
#[derive(Debug, Clone, Copy, PartialEq, Eq, Structural)]
pub enum ShouldClose {
    Close,
    LeaveOpen,
}

impl ShouldClose {
    /// The window goes exactly when the user closed it during the frame.
    pub fn after_frame(is_open: bool) -> (verdict: ShouldClose)
        ensures
            verdict == if is_open {
                ShouldClose::LeaveOpen
            } else {
                ShouldClose::Close
            },
    {
        if is_open {
            ShouldClose::LeaveOpen
        } else {
            ShouldClose::Close
        }
    }
}

/// Whether the settings are to be stored after a frame: always while none
/// were stored, and afterwards whenever they differ from the stored ones.
pub fn settings_need_saving(stored: bool, differ: bool) -> (save: bool)
    ensures
        save == (!stored || differ),
{
    !stored || differ
}

} // verus!
