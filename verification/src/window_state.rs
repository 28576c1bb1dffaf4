//! The size and position of the main window, kept across runs.

use vstd::prelude::*;

verus! {

/// The stored geometry of the window; `-1` marks a value never stored.
#[derive(Clone, Copy, Debug, PartialEq, Eq)]
pub struct WindowGeometry {
    pub width: i32,
    pub height: i32,
    pub x: i32,
    pub y: i32,
    pub is_maximized: bool,
}

/// What to do to a new window to restore the stored geometry.
#[derive(Clone, Copy, Debug, PartialEq, Eq)]
pub struct WindowRestore {
    /// The size to give the window.
    pub resize: Option<(i32, i32)>,
    /// The position to move the window to.
    pub move_to: Option<(i32, i32)>,
    /// Whether to maximize the window.
    pub maximize: bool,
}

/// The restoration of `saved`: the stored size when both dimensions are
/// stored, the stored position when both coordinates are stored, and
/// otherwise a maximized window if it was maximized.
pub fn load(saved: &WindowGeometry) -> (r: WindowRestore)
    ensures
        r.resize == (if saved.width > -1 && saved.height > -1 {
            Some((saved.width, saved.height))
        } else {
            None
        }),
        r.move_to == (if saved.x > -1 && saved.y > -1 {
            Some((saved.x, saved.y))
        } else {
            None
        }),
        r.maximize == (!(saved.x > -1 && saved.y > -1) && saved.is_maximized),
{
    let resize = if saved.width > -1 && saved.height > -1 {
        Some((saved.width, saved.height))
    } else {
        None
    };
    if saved.x > -1 && saved.y > -1 {
        WindowRestore { resize, move_to: Some((saved.x, saved.y)), maximize: false }
    } else if saved.is_maximized {
        WindowRestore { resize, move_to: None, maximize: true }
    } else {
        WindowRestore { resize, move_to: None, maximize: false }
    }
}

} // verus!
