//! Handles of the platform's objects, as plain numbers.

use vstd::prelude::*;

verus! {

/// The handles of one tray icon's window, of the instance that owns it and of
/// its popup menu. Fixed once the window, the icon and the menu exist.
#[derive(Clone, Copy, Debug, PartialEq, Eq, Structural)]
pub struct WindowInfo {
    pub hwnd: isize,
    pub hinstance: isize,
    pub hmenu: isize,
}

/// A handle that names an object: neither zero nor minus one, the two values by
/// which the platform reports that it has none.
pub open spec fn handle_is_valid(handle: isize) -> bool {
    handle != 0 && handle != -1
}

/// Tells whether `handle` names an object.
pub fn is_valid(handle: isize) -> (b: bool)
    ensures
        b == handle_is_valid(handle),
{
    handle != 0 && handle != -1
}

} // verus!
