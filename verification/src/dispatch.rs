//! The window procedure's decisions and the message loop's step.
//!
//! The platform hands every message of the window to the window procedure. What
//! is to be done with a message is decided here; doing it is the caller's part.

use vstd::prelude::*;
use crate::event::SystrayEvent;
use crate::handle::WindowInfo;
use crate::native::{
    tpm_bottomalign, tpm_leftalign, wm_destroy, wm_lbuttonup, wm_menucommand, wm_quit, wm_rbuttonup,
    wm_user, TPM_BOTTOMALIGN, TPM_LEFTALIGN, WM_DESTROY, WM_LBUTTONUP, WM_MENUCOMMAND, WM_QUIT,
    WM_RBUTTONUP, WM_USER,
};

verus! {

/// The id by which the platform answers that a menu position holds no item.
pub const NO_SELECTION: u32 = 0xFFFF_FFFF;

/// What the window procedure does with one message.
#[derive(Clone, Copy, Debug, PartialEq, Eq)]
pub enum Dispatch {
    /// An item of the menu was selected: resolve `position`, the low 32 bits of
    /// the message's first parameter, to the item's id through `hmenu`, hand
    /// the id to [`menu_event`], then let the platform process the message.
    MenuCommand { hmenu: isize, position: u32 },
    /// A mouse button was released over the icon: read the cursor's position
    /// and hand it to [`tray_click`].
    TrayClick,
    /// The window is being destroyed: ask the thread's message loop to end,
    /// then let the platform process the message.
    Destroy,
    /// Nothing of the tray's own: let the platform process the message.
    Default,
}

/// What follows a click on the icon.
#[derive(Clone, Copy, Debug, PartialEq, Eq)]
pub enum Click {
    /// The cursor's position is unknown: the message counts as handled, and
    /// the platform does not process it further; see [`click_result`].
    Handled,
    /// Bring `foreground` to the front, show `popup` if there is one, then let
    /// the platform process the message.
    Show { foreground: isize, popup: Option<Popup> },
}

/// A popup menu to show: the menu, how it lies to its anchor, the anchor, and
/// the window that owns it.
#[derive(Clone, Copy, Debug, PartialEq, Eq)]
pub struct Popup {
    pub hmenu: isize,
    pub flags: u32,
    pub x: i32,
    pub y: i32,
    pub hwnd: isize,
}

/// What the message loop does with a message it has retrieved.
#[derive(Clone, Copy, Debug, PartialEq, Eq, Structural)]
pub enum Pump {
    /// Leave the loop.
    Stop,
    /// Translate and dispatch the message, then retrieve the next one.
    Dispatch,
}

/// The message by which the icon reports what happens to it.
pub open spec fn callback_message() -> u32 {
    (WM_USER + 1) as u32
}

/// A tray-icon callback whose sub-message, the low 32 bits of `l_param`, is the
/// release of the left or of the right mouse button.
pub open spec fn is_tray_click(msg: u32, l_param: isize) -> bool {
    msg == callback_message() && (l_param as u32 == WM_LBUTTONUP || l_param as u32 == WM_RBUTTONUP)
}

/// The decision for one message, given the context of the event loop if it is
/// set already.
pub open spec fn dispatch_of(
    context: Option<WindowInfo>,
    msg: u32,
    w_param: usize,
    l_param: isize,
) -> Dispatch {
    if msg == WM_MENUCOMMAND {
        match context {
            Some(info) => Dispatch::MenuCommand { hmenu: info.hmenu, position: w_param as u32 },
            None => Dispatch::Default,
        }
    } else if is_tray_click(msg, l_param) {
        Dispatch::TrayClick
    } else if msg == WM_DESTROY {
        Dispatch::Destroy
    } else {
        Dispatch::Default
    }
}

/// The event for a resolved menu id: none for [`NO_SELECTION`], else one that
/// carries the id.
pub open spec fn event_of(menu_id: u32) -> Option<SystrayEvent> {
    if menu_id == NO_SELECTION {
        None
    } else {
        Some(SystrayEvent { menu_index: menu_id })
    }
}

/// How a popup menu lies to its anchor: its bottom-left corner is there.
pub open spec fn popup_flags() -> u32 {
    TPM_BOTTOMALIGN | TPM_LEFTALIGN
}

/// What follows a click, given the cursor's position if it could be read.
pub open spec fn click_of(context: Option<WindowInfo>, h_wnd: isize, cursor: Option<(i32, i32)>) -> Click {
    match cursor {
        None => Click::Handled,
        Some(p) => Click::Show {
            foreground: h_wnd,
            popup: match context {
                Some(info) => Some(
                    Popup { hmenu: info.hmenu, flags: popup_flags(), x: p.0, y: p.1, hwnd: h_wnd },
                ),
                None => None,
            },
        },
    }
}

/// What the message loop does with a retrieved message: it stops on the quit
/// message and dispatches every other.
pub open spec fn pump_of(message: u32) -> Pump {
    if message == WM_QUIT {
        Pump::Stop
    } else {
        Pump::Dispatch
    }
}

/// A selection that the platform reports at the position `position` reaches
/// the window procedure's decision with that very position.
pub proof fn lemma_menu_command_carries_position(info: WindowInfo, position: u32, l_param: isize)
    ensures
        dispatch_of(Some(info), WM_MENUCOMMAND, position as usize, l_param)
            == (Dispatch::MenuCommand { hmenu: info.hmenu, position }),
{
    assert((position as usize) as u32 == position) by (bit_vector);
}

/// Whatever messages are pending when the quit message is queued behind them,
/// the loop comes to a message on which it stops, the quit message at the
/// latest.
pub proof fn lemma_loop_stops_after_pending(pending: Seq<u32>)
    ensures
        exists|i: int|
            0 <= i <= pending.len() && pump_of(#[trigger] pending.push(WM_QUIT)[i]) == Pump::Stop,
{
    assert(pump_of(pending.push(WM_QUIT)[pending.len() as int]) == Pump::Stop);
}

/// The icon's callback message, computed from the platform's codes.
pub fn tray_callback_message() -> (m: u32)
    ensures
        m == callback_message(),
{
    wm_user() + 1
}

/// Decides what the window procedure does with the message `msg` and its two
/// parameters. `context` is the event loop's context, `None` until it is set.
pub fn window_proc(context: &Option<WindowInfo>, msg: u32, w_param: usize, l_param: isize) -> (d:
    Dispatch)
    ensures
        d == dispatch_of(*context, msg, w_param, l_param),
{
    if msg == wm_menucommand() {
        match context {
            Some(info) => Dispatch::MenuCommand {
                hmenu: info.hmenu,
                position: #[verifier::truncate] (w_param as u32),
            },
            None => Dispatch::Default,
        }
    } else if msg == tray_callback_message() {
        let sub: u32 = #[verifier::truncate] (l_param as u32);
        if sub == wm_lbuttonup() || sub == wm_rbuttonup() {
            Dispatch::TrayClick
        } else {
            Dispatch::Default
        }
    } else if msg == wm_destroy() {
        Dispatch::Destroy
    } else {
        Dispatch::Default
    }
}

/// Turns the id that a selected position resolved to into the event to send,
/// if any.
pub fn menu_event(menu_id: u32) -> (e: Option<SystrayEvent>)
    ensures
        e == event_of(menu_id),
{
    if menu_id == NO_SELECTION {
        None
    } else {
        Some(SystrayEvent { menu_index: menu_id })
    }
}

/// Decides what follows a click on the icon in the window `h_wnd`. `cursor` is
/// the cursor's position, `None` if it could not be read.
pub fn tray_click(context: &Option<WindowInfo>, h_wnd: isize, cursor: Option<(i32, i32)>) -> (c:
    Click)
    ensures
        c == click_of(*context, h_wnd, cursor),
{
    match cursor {
        None => Click::Handled,
        Some(p) => {
            let popup = match context {
                Some(info) => Some(
                    Popup {
                        hmenu: info.hmenu,
                        flags: tpm_bottomalign() | tpm_leftalign(),
                        x: p.0,
                        y: p.1,
                        hwnd: h_wnd,
                    },
                ),
                None => None,
            };
            Click::Show { foreground: h_wnd, popup }
        },
    }
}

/// The result with which the window procedure returns at once after a click,
/// if it does: 1 for a click that counts as handled. Otherwise the message goes
/// on to the platform, whose result the window procedure returns.
pub open spec fn result_of(click: Click) -> Option<isize> {
    match click {
        Click::Handled => Some(1isize),
        Click::Show { .. } => None,
    }
}

/// Tells whether the window procedure returns at once after a click, and with
/// which result.
pub fn click_result(click: &Click) -> (r: Option<isize>)
    ensures
        r == result_of(*click),
{
    match click {
        Click::Handled => Some(1),
        Click::Show { .. } => None,
    }
}

/// Decides what the message loop does with a retrieved message.
pub fn run_loop(message: u32) -> (p: Pump)
    ensures
        p == pump_of(message),
{
    if message == wm_quit() {
        Pump::Stop
    } else {
        Pump::Dispatch
    }
}

} // verus!
