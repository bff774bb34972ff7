//! Pointer-capture state machine.
//!
//! A dedicated key flips the window between two states: **released**
//! (pointer visible and unconstrained) and **captured** (pointer hidden and
//! confined to the window). The window's real flags are mutated by the
//! embedding; this module decides, exactly, what they become.

use vstd::prelude::*;

verus! {

/// Pointer grab mode of the window.
#[derive(Clone, Copy, PartialEq, Eq, Structural, Debug)]
pub enum GrabMode {
    /// The pointer moves freely over the desktop.
    Unlocked,
    /// The pointer is confined to the window bounds.
    Confined,
}

/// The window's pointer flags, as the capture controller sees them.
#[derive(Clone, Copy, PartialEq, Eq, Structural, Debug)]
pub struct CursorState {
    pub visible: bool,
    pub grab: GrabMode,
}

/// The pointer is captured: hidden and driving the camera.
pub open spec fn captured(c: CursorState) -> bool {
    !c.visible
}

/// The two flags move together: visible exactly when unconstrained.
pub open spec fn cursor_wf(c: CursorState) -> bool {
    c.visible <==> c.grab is Unlocked
}

/// Where one capture toggle lands: a visible, unconstrained pointer becomes
/// hidden and confined; anything else returns to visible and unconstrained.
pub open spec fn toggled(c: CursorState) -> CursorState {
    if c.visible && c.grab is Unlocked {
        CursorState { visible: false, grab: GrabMode::Confined }
    } else {
        CursorState { visible: true, grab: GrabMode::Unlocked }
    }
}

impl CursorState {
    /// The state of a freshly opened window: pointer visible, unconstrained.
    pub fn released() -> (r: CursorState)
        ensures
            r == (CursorState { visible: true, grab: GrabMode::Unlocked }),
            cursor_wf(r),
            !captured(r),
    {
        CursorState { visible: true, grab: GrabMode::Unlocked }
    }

    /// Flips between released and captured on the toggle key's edge.
    pub fn toggle(&mut self)
        ensures
            *final(self) == toggled(*old(self)),
            cursor_wf(*final(self)),
            cursor_wf(*old(self)) ==> (captured(*final(self)) <==> !captured(*old(self))),
    {
        if self.visible && matches!(self.grab, GrabMode::Unlocked) {
            self.visible = false;
            self.grab = GrabMode::Confined;
        } else {
            self.visible = true;
            self.grab = GrabMode::Unlocked;
        }
    }
}

/// Toggling capture twice returns the pointer flags to their original
/// values, from either well-formed state.
pub proof fn lemma_toggle_twice(c: CursorState)
    requires
        cursor_wf(c),
    ensures
        toggled(toggled(c)) == c,
{
}

} // verus!
