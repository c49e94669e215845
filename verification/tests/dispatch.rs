use systray::dispatch::{
    click_result, menu_event, run_loop, tray_callback_message, tray_click, window_proc, Click,
    Dispatch, Popup, Pump, NO_SELECTION,
};
use systray::{SystrayEvent, WindowInfo};
use windows_sys::Win32::UI::WindowsAndMessaging::{
    TPM_BOTTOMALIGN, TPM_LEFTALIGN, WM_DESTROY, WM_LBUTTONUP, WM_MENUCOMMAND, WM_QUIT,
    WM_RBUTTONUP, WM_USER,
};

fn info() -> WindowInfo {
    WindowInfo { hwnd: 0x1234, hinstance: 0x400000, hmenu: 0x77 }
}

#[test]
fn menu_command_is_resolved_through_the_menu() {
    let d = window_proc(&Some(info()), WM_MENUCOMMAND, 3, 0x77);
    assert_eq!(d, Dispatch::MenuCommand { hmenu: 0x77, position: 3 });
    assert_eq!(window_proc(&Some(info()), 294, 0, 0), Dispatch::MenuCommand { hmenu: 0x77, position: 0 });
}

#[test]
fn menu_command_position_is_the_low_half_of_the_parameter() {
    let w: usize = usize::MAX;
    let d = window_proc(&Some(info()), WM_MENUCOMMAND, w, 0);
    assert_eq!(d, Dispatch::MenuCommand { hmenu: 0x77, position: 0xFFFF_FFFF });
}

#[test]
fn menu_command_without_context_is_left_to_the_platform() {
    assert_eq!(window_proc(&None, WM_MENUCOMMAND, 3, 0), Dispatch::Default);
}

#[test]
fn button_release_over_the_icon_is_a_click() {
    let callback = WM_USER + 1;
    assert_eq!(tray_callback_message(), 1025);
    assert_eq!(callback, 1025);
    assert_eq!(window_proc(&Some(info()), callback, 1, WM_LBUTTONUP as isize), Dispatch::TrayClick);
    assert_eq!(window_proc(&Some(info()), callback, 1, WM_RBUTTONUP as isize), Dispatch::TrayClick);
    assert_eq!(window_proc(&None, callback, 1, 517), Dispatch::TrayClick);
    assert_eq!(window_proc(&None, callback, 1, 514), Dispatch::TrayClick);
}

#[test]
fn other_callbacks_of_the_icon_are_left_to_the_platform() {
    // mouse move, left button down, right button down
    assert_eq!(window_proc(&Some(info()), 1025, 1, 512), Dispatch::Default);
    assert_eq!(window_proc(&Some(info()), 1025, 1, 513), Dispatch::Default);
    assert_eq!(window_proc(&Some(info()), 1025, 1, 516), Dispatch::Default);
    // a button release that is not the icon's callback
    assert_eq!(window_proc(&Some(info()), 514, 0, 514), Dispatch::Default);
    assert_eq!(window_proc(&Some(info()), 1024, 0, 514), Dispatch::Default);
}

#[test]
fn click_reads_the_low_32_bits_of_the_parameter() {
    let negative: isize = -1;
    assert_eq!(window_proc(&Some(info()), 1025, 0, negative), Dispatch::Default);
    if usize::BITS == 64 {
        let high: isize = ((1u64 << 40) | 514) as isize;
        assert_eq!(window_proc(&Some(info()), 1025, 0, high), Dispatch::TrayClick);
    }
}

#[test]
fn destroy_asks_the_loop_to_end() {
    assert_eq!(window_proc(&Some(info()), WM_DESTROY, 0, 0), Dispatch::Destroy);
    assert_eq!(window_proc(&None, 2, 7, 9), Dispatch::Destroy);
}

#[test]
fn every_other_message_is_left_to_the_platform() {
    for msg in [0u32, 1, 3, 5, 15, 18, 293, 295, 1026, 0xFFFF_FFFF] {
        assert_eq!(window_proc(&Some(info()), msg, 514, 514), Dispatch::Default);
    }
}

#[test]
fn resolved_id_becomes_an_event() {
    assert_eq!(menu_event(0), Some(SystrayEvent { menu_index: 0 }));
    assert_eq!(menu_event(2), Some(SystrayEvent { menu_index: 2 }));
    assert_eq!(menu_event(0xFFFF_FFFE), Some(SystrayEvent { menu_index: 0xFFFF_FFFE }));
}

#[test]
fn no_selection_is_ignored() {
    assert_eq!(NO_SELECTION, u32::MAX);
    assert_eq!(NO_SELECTION as i32, -1);
    assert_eq!(menu_event(NO_SELECTION), None);
}

#[test]
fn click_without_cursor_position_is_handled_without_menu() {
    assert_eq!(tray_click(&Some(info()), 0x1234, None), Click::Handled);
    assert_eq!(tray_click(&None, 0x1234, None), Click::Handled);
}

#[test]
fn handled_click_returns_one_at_once() {
    let handled = tray_click(&Some(info()), 0x1234, None);
    assert_eq!(click_result(&handled), Some(1));
    let shown = tray_click(&Some(info()), 0x1234, Some((3, 4)));
    assert_eq!(click_result(&shown), None);
    let bare = tray_click(&None, 0x1234, Some((3, 4)));
    assert_eq!(click_result(&bare), None);
}

#[test]
fn click_shows_the_menu_bottom_left_aligned_at_the_cursor() {
    let c = tray_click(&Some(info()), 0x1234, Some((640, -20)));
    let popup = Popup { hmenu: 0x77, flags: 32, x: 640, y: -20, hwnd: 0x1234 };
    assert_eq!(c, Click::Show { foreground: 0x1234, popup: Some(popup) });
    assert_eq!(popup.flags, TPM_BOTTOMALIGN | TPM_LEFTALIGN);
}

#[test]
fn click_without_context_shows_no_menu() {
    let c = tray_click(&None, 0x1234, Some((1, 2)));
    assert_eq!(c, Click::Show { foreground: 0x1234, popup: None });
}

#[test]
fn loop_stops_on_quit_only() {
    assert_eq!(run_loop(WM_QUIT), Pump::Stop);
    assert_eq!(run_loop(18), Pump::Stop);
    for msg in [0u32, 2, 17, 19, 294, 1025, u32::MAX] {
        assert_eq!(run_loop(msg), Pump::Dispatch);
    }
}
