//! Descriptors of the notification icon and the requests made with them.

use vstd::prelude::*;
use crate::error::Error;
use crate::native::{
    nif_message, nim_add, NIF_ICON, NIF_MESSAGE, NIF_TIP, NIM_ADD, NIM_DELETE, NIM_MODIFY,
};
use crate::dispatch::{callback_message, tray_callback_message};
use crate::operation::{check_status, status_result, Operation};
use crate::text::tooltip_of;

verus! {

/// The identifier of the one icon that a window has.
pub const ICON_ID: u32 = 1;

/// What the platform is told of the notification icon. Fields of the platform's
/// descriptor that this crate never sets are left out; they are zero.
#[derive(Clone, Copy, Debug, PartialEq, Eq)]
pub struct NotifyIconData {
    /// The window that receives the icon's callback messages.
    pub hwnd: isize,
    /// The icon's identifier within its window.
    pub id: u32,
    /// Which of the following fields are valid.
    pub flags: u32,
    /// The message by which the icon reports what happens to it.
    pub callback_message: u32,
    /// The image to show.
    pub icon: isize,
    /// The tooltip.
    pub tip: [u16; 128],
}

/// One request to add, modify or delete the notification icon.
#[derive(Clone, Copy, Debug, PartialEq, Eq)]
pub struct NotifyIcon {
    /// The operation that the request belongs to.
    pub operation: Operation,
    /// The command: add, modify or delete.
    pub command: u32,
    /// The descriptor that goes with the command.
    pub data: NotifyIconData,
}

impl NotifyIconData {
    /// The descriptor names the icon of `hwnd` and holds the given values.
    pub open spec fn holds(
        self,
        hwnd: isize,
        flags: u32,
        callback_message: u32,
        icon: isize,
        tip: Seq<u16>,
    ) -> bool {
        &&& self.hwnd == hwnd
        &&& self.id == ICON_ID
        &&& self.flags == flags
        &&& self.callback_message == callback_message
        &&& self.icon == icon
        &&& self.tip@ == tip
    }
}

/// The tooltip field with no text in it.
pub open spec fn empty_tip() -> Seq<u16> {
    Seq::new(128, |i: int| 0u16)
}

impl NotifyIcon {
    /// The request that registers the icon of `hwnd`: only the callback message
    /// is given, no image and no tooltip yet.
    pub open spec fn is_add(self, hwnd: isize) -> bool {
        &&& self.operation == Operation::AddIcon
        &&& self.command == NIM_ADD
        &&& self.data.holds(hwnd, NIF_MESSAGE, callback_message(), 0, empty_tip())
    }

    /// The request that sets the tooltip of the icon of `hwnd` to `text`.
    pub open spec fn is_tooltip(self, hwnd: isize, text: Seq<char>) -> bool {
        &&& self.operation == Operation::SetTooltip
        &&& self.command == NIM_MODIFY
        &&& self.data.holds(hwnd, NIF_TIP, 0, 0, tooltip_of(text))
    }

    /// The request that sets the image of the icon of `hwnd`.
    pub open spec fn is_icon(self, hwnd: isize, icon: isize) -> bool {
        &&& self.operation == Operation::SetIcon
        &&& self.command == NIM_MODIFY
        &&& self.data.holds(hwnd, NIF_ICON, 0, icon, empty_tip())
    }

    /// The request that removes the icon of `hwnd`.
    pub open spec fn is_delete(self, hwnd: isize) -> bool {
        &&& self.operation == Operation::DeleteIcon
        &&& self.command == NIM_DELETE
        &&& self.data.holds(hwnd, NIF_ICON, 0, 0, empty_tip())
    }

    /// Judges the platform's answer to this request: a zero `status` is the
    /// failure of the request's operation, with the last-error code `last_error`.
    pub fn finish(&self, status: i32, last_error: u32) -> (r: Result<(), Error>)
        ensures
            status_result(self.operation, status, last_error, r),
    {
        check_status(self.operation, status, last_error)
    }
}

/// A descriptor for the icon of `hwnd` with nothing set.
pub fn get_nid_struct(hwnd: &isize) -> (nid: NotifyIconData)
    ensures
        nid.holds(*hwnd, 0, 0, 0, empty_tip()),
{
    let nid = NotifyIconData {
        hwnd: *hwnd,
        id: ICON_ID,
        flags: 0,
        callback_message: 0,
        icon: 0,
        tip: [0u16; 128],
    };
    assert(nid.tip@ =~= empty_tip());
    nid
}

/// The request that registers the icon of `hwnd`.
pub fn add_icon(hwnd: isize) -> (request: NotifyIcon)
    ensures
        request.is_add(hwnd),
{
    let mut nid = get_nid_struct(&hwnd);
    nid.flags = nif_message();
    nid.callback_message = tray_callback_message();
    NotifyIcon { operation: Operation::AddIcon, command: nim_add(), data: nid }
}

} // verus!
