//! The platform's numeric codes, read from the `windows_sys` bindings.
//!
//! Each constant below is the value that the contracts of this crate speak of.
//! Each function beside it reads the binding of the same name; that the binding
//! holds this value is stated, not proved.

use vstd::prelude::*;

verus! {

/// Message code: the window is being destroyed.
pub const WM_DESTROY: u32 = 2;

/// Reads `windows_sys::Win32::UI::WindowsAndMessaging::WM_DESTROY`; the contract states its value.
#[verifier::external_body]
pub(crate) fn wm_destroy() -> (r: u32)
    ensures
        r == WM_DESTROY,
{
    windows_sys::Win32::UI::WindowsAndMessaging::WM_DESTROY
}

/// Message code: the message loop is asked to end.
pub const WM_QUIT: u32 = 18;

/// Reads `windows_sys::Win32::UI::WindowsAndMessaging::WM_QUIT`; the contract states its value.
#[verifier::external_body]
pub(crate) fn wm_quit() -> (r: u32)
    ensures
        r == WM_QUIT,
{
    windows_sys::Win32::UI::WindowsAndMessaging::WM_QUIT
}

/// Message code: an item of a by-position menu was selected.
pub const WM_MENUCOMMAND: u32 = 294;

/// Reads `windows_sys::Win32::UI::WindowsAndMessaging::WM_MENUCOMMAND`; the contract states its value.
#[verifier::external_body]
pub(crate) fn wm_menucommand() -> (r: u32)
    ensures
        r == WM_MENUCOMMAND,
{
    windows_sys::Win32::UI::WindowsAndMessaging::WM_MENUCOMMAND
}

/// Message code: the left mouse button was released.
pub const WM_LBUTTONUP: u32 = 514;

/// Reads `windows_sys::Win32::UI::WindowsAndMessaging::WM_LBUTTONUP`; the contract states its value.
#[verifier::external_body]
pub(crate) fn wm_lbuttonup() -> (r: u32)
    ensures
        r == WM_LBUTTONUP,
{
    windows_sys::Win32::UI::WindowsAndMessaging::WM_LBUTTONUP
}

/// Message code: the right mouse button was released.
pub const WM_RBUTTONUP: u32 = 517;

/// Reads `windows_sys::Win32::UI::WindowsAndMessaging::WM_RBUTTONUP`; the contract states its value.
#[verifier::external_body]
pub(crate) fn wm_rbuttonup() -> (r: u32)
    ensures
        r == WM_RBUTTONUP,
{
    windows_sys::Win32::UI::WindowsAndMessaging::WM_RBUTTONUP
}

/// First message code that an application may define for itself.
pub const WM_USER: u32 = 1024;

/// Reads `windows_sys::Win32::UI::WindowsAndMessaging::WM_USER`; the contract states its value.
#[verifier::external_body]
pub(crate) fn wm_user() -> (r: u32)
    ensures
        r == WM_USER,
{
    windows_sys::Win32::UI::WindowsAndMessaging::WM_USER
}

/// Notification-icon command: add the icon.
pub const NIM_ADD: u32 = 0;

/// Reads `windows_sys::Win32::UI::Shell::NIM_ADD`; the contract states its value.
#[verifier::external_body]
pub(crate) fn nim_add() -> (r: u32)
    ensures
        r == NIM_ADD,
{
    windows_sys::Win32::UI::Shell::NIM_ADD
}

/// Notification-icon command: modify the icon.
pub const NIM_MODIFY: u32 = 1;

/// Reads `windows_sys::Win32::UI::Shell::NIM_MODIFY`; the contract states its value.
#[verifier::external_body]
pub(crate) fn nim_modify() -> (r: u32)
    ensures
        r == NIM_MODIFY,
{
    windows_sys::Win32::UI::Shell::NIM_MODIFY
}

/// Notification-icon command: delete the icon.
pub const NIM_DELETE: u32 = 2;

/// Reads `windows_sys::Win32::UI::Shell::NIM_DELETE`; the contract states its value.
#[verifier::external_body]
pub(crate) fn nim_delete() -> (r: u32)
    ensures
        r == NIM_DELETE,
{
    windows_sys::Win32::UI::Shell::NIM_DELETE
}

/// Notification-icon flag: the callback message is valid.
pub const NIF_MESSAGE: u32 = 1;

/// Reads `windows_sys::Win32::UI::Shell::NIF_MESSAGE`; the contract states its value.
#[verifier::external_body]
pub(crate) fn nif_message() -> (r: u32)
    ensures
        r == NIF_MESSAGE,
{
    windows_sys::Win32::UI::Shell::NIF_MESSAGE
}

/// Notification-icon flag: the icon handle is valid.
pub const NIF_ICON: u32 = 2;

/// Reads `windows_sys::Win32::UI::Shell::NIF_ICON`; the contract states its value.
#[verifier::external_body]
pub(crate) fn nif_icon() -> (r: u32)
    ensures
        r == NIF_ICON,
{
    windows_sys::Win32::UI::Shell::NIF_ICON
}

/// Notification-icon flag: the tooltip text is valid.
pub const NIF_TIP: u32 = 4;

/// Reads `windows_sys::Win32::UI::Shell::NIF_TIP`; the contract states its value.
#[verifier::external_body]
pub(crate) fn nif_tip() -> (r: u32)
    ensures
        r == NIF_TIP,
{
    windows_sys::Win32::UI::Shell::NIF_TIP
}

/// Menu-item mask: the state is set.
pub const MIIM_STATE: u32 = 1;

/// Reads `windows_sys::Win32::UI::WindowsAndMessaging::MIIM_STATE`; the contract states its value.
#[verifier::external_body]
pub(crate) fn miim_state() -> (r: u32)
    ensures
        r == MIIM_STATE,
{
    windows_sys::Win32::UI::WindowsAndMessaging::MIIM_STATE
}

/// Menu-item mask: the id is set.
pub const MIIM_ID: u32 = 2;

/// Reads `windows_sys::Win32::UI::WindowsAndMessaging::MIIM_ID`; the contract states its value.
#[verifier::external_body]
pub(crate) fn miim_id() -> (r: u32)
    ensures
        r == MIIM_ID,
{
    windows_sys::Win32::UI::WindowsAndMessaging::MIIM_ID
}

/// Menu-item mask: the text is set.
pub const MIIM_STRING: u32 = 64;

/// Reads `windows_sys::Win32::UI::WindowsAndMessaging::MIIM_STRING`; the contract states its value.
#[verifier::external_body]
pub(crate) fn miim_string() -> (r: u32)
    ensures
        r == MIIM_STRING,
{
    windows_sys::Win32::UI::WindowsAndMessaging::MIIM_STRING
}

/// Menu-item mask: the type is set.
pub const MIIM_FTYPE: u32 = 256;

/// Reads `windows_sys::Win32::UI::WindowsAndMessaging::MIIM_FTYPE`; the contract states its value.
#[verifier::external_body]
pub(crate) fn miim_ftype() -> (r: u32)
    ensures
        r == MIIM_FTYPE,
{
    windows_sys::Win32::UI::WindowsAndMessaging::MIIM_FTYPE
}

/// Menu-item type: a text label.
pub const MFT_STRING: u32 = 0;

/// Reads `windows_sys::Win32::UI::WindowsAndMessaging::MFT_STRING`; the contract states its value.
#[verifier::external_body]
pub(crate) fn mft_string() -> (r: u32)
    ensures
        r == MFT_STRING,
{
    windows_sys::Win32::UI::WindowsAndMessaging::MFT_STRING
}

/// Menu-item type: a separator line.
pub const MFT_SEPARATOR: u32 = 2048;

/// Reads `windows_sys::Win32::UI::WindowsAndMessaging::MFT_SEPARATOR`; the contract states its value.
#[verifier::external_body]
pub(crate) fn mft_separator() -> (r: u32)
    ensures
        r == MFT_SEPARATOR,
{
    windows_sys::Win32::UI::WindowsAndMessaging::MFT_SEPARATOR
}

/// Menu-info mask: the style is set.
pub const MIM_STYLE: u32 = 16;

/// Reads `windows_sys::Win32::UI::WindowsAndMessaging::MIM_STYLE`; the contract states its value.
#[verifier::external_body]
pub(crate) fn mim_style() -> (r: u32)
    ensures
        r == MIM_STYLE,
{
    windows_sys::Win32::UI::WindowsAndMessaging::MIM_STYLE
}

/// Menu-info mask: the settings reach submenus too.
pub const MIM_APPLYTOSUBMENUS: u32 = 2147483648;

/// Reads `windows_sys::Win32::UI::WindowsAndMessaging::MIM_APPLYTOSUBMENUS`; the contract states its value.
#[verifier::external_body]
pub(crate) fn mim_applytosubmenus() -> (r: u32)
    ensures
        r == MIM_APPLYTOSUBMENUS,
{
    windows_sys::Win32::UI::WindowsAndMessaging::MIM_APPLYTOSUBMENUS
}

/// Menu style: selections are reported by position.
pub const MNS_NOTIFYBYPOS: u32 = 134217728;

/// Reads `windows_sys::Win32::UI::WindowsAndMessaging::MNS_NOTIFYBYPOS`; the contract states its value.
#[verifier::external_body]
pub(crate) fn mns_notifybypos() -> (r: u32)
    ensures
        r == MNS_NOTIFYBYPOS,
{
    windows_sys::Win32::UI::WindowsAndMessaging::MNS_NOTIFYBYPOS
}

/// Popup flag: the menu's left edge is at the anchor.
pub const TPM_LEFTALIGN: u32 = 0;

/// Reads `windows_sys::Win32::UI::WindowsAndMessaging::TPM_LEFTALIGN`; the contract states its value.
#[verifier::external_body]
pub(crate) fn tpm_leftalign() -> (r: u32)
    ensures
        r == TPM_LEFTALIGN,
{
    windows_sys::Win32::UI::WindowsAndMessaging::TPM_LEFTALIGN
}

/// Popup flag: the menu's bottom edge is at the anchor.
pub const TPM_BOTTOMALIGN: u32 = 32;

/// Reads `windows_sys::Win32::UI::WindowsAndMessaging::TPM_BOTTOMALIGN`; the contract states its value.
#[verifier::external_body]
pub(crate) fn tpm_bottomalign() -> (r: u32)
    ensures
        r == TPM_BOTTOMALIGN,
{
    windows_sys::Win32::UI::WindowsAndMessaging::TPM_BOTTOMALIGN
}

/// Image type: an icon.
pub const IMAGE_ICON: u32 = 1;

/// Reads `windows_sys::Win32::UI::WindowsAndMessaging::IMAGE_ICON`; the contract states its value.
#[verifier::external_body]
pub(crate) fn image_icon() -> (r: u32)
    ensures
        r == IMAGE_ICON,
{
    windows_sys::Win32::UI::WindowsAndMessaging::IMAGE_ICON
}

/// Image flag: no special treatment.
pub const LR_DEFAULTCOLOR: u32 = 0;

/// Reads `windows_sys::Win32::UI::WindowsAndMessaging::LR_DEFAULTCOLOR`; the contract states its value.
#[verifier::external_body]
pub(crate) fn lr_defaultcolor() -> (r: u32)
    ensures
        r == LR_DEFAULTCOLOR,
{
    windows_sys::Win32::UI::WindowsAndMessaging::LR_DEFAULTCOLOR
}

/// Image flag: the name is a file path.
pub const LR_LOADFROMFILE: u32 = 16;

/// Reads `windows_sys::Win32::UI::WindowsAndMessaging::LR_LOADFROMFILE`; the contract states its value.
#[verifier::external_body]
pub(crate) fn lr_loadfromfile() -> (r: u32)
    ensures
        r == LR_LOADFROMFILE,
{
    windows_sys::Win32::UI::WindowsAndMessaging::LR_LOADFROMFILE
}

/// Window style: an overlapped top-level window.
pub const WS_OVERLAPPEDWINDOW: u32 = 13565952;

/// Reads `windows_sys::Win32::UI::WindowsAndMessaging::WS_OVERLAPPEDWINDOW`; the contract states its value.
#[verifier::external_body]
pub(crate) fn ws_overlappedwindow() -> (r: u32)
    ensures
        r == WS_OVERLAPPEDWINDOW,
{
    windows_sys::Win32::UI::WindowsAndMessaging::WS_OVERLAPPEDWINDOW
}

/// Placement value: let the system choose.
pub const CW_USEDEFAULT: i32 = -2147483648;

/// Reads `windows_sys::Win32::UI::WindowsAndMessaging::CW_USEDEFAULT`; the contract states its value.
#[verifier::external_body]
pub(crate) fn cw_usedefault() -> (r: i32)
    ensures
        r == CW_USEDEFAULT,
{
    windows_sys::Win32::UI::WindowsAndMessaging::CW_USEDEFAULT
}

/// Identifier of the system's stock application icon.
pub const IDI_APPLICATION: usize = 32512;

/// Reads `windows_sys::Win32::UI::WindowsAndMessaging::IDI_APPLICATION`, a
/// resource identifier in the shape of an address, as the number it holds; the
/// contract states that number.
#[verifier::external_body]
pub(crate) fn idi_application() -> (r: usize)
    ensures
        r == IDI_APPLICATION,
{
    windows_sys::Win32::UI::WindowsAndMessaging::IDI_APPLICATION as usize
}

} // verus!
