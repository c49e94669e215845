use systray::dispatch::{menu_event, run_loop, window_proc, Dispatch, Pump};
use systray::icon::{CreateIcon, LoadImage, LookupIcon};
use systray::menu::{InsertMenuItem, ItemKind, MenuItem, MenuItemInfo};
use systray::notify::{get_nid_struct, NotifyIcon, NotifyIconData};
use systray::operation::Operation;
use systray::window::{PostMessage, Quit};
use systray::{Error, SystrayEvent, Window, WindowInfo};
use windows_sys::Win32::UI::Shell::{NIF_ICON, NIF_TIP, NIM_DELETE, NIM_MODIFY};
use windows_sys::Win32::UI::WindowsAndMessaging::{
    IMAGE_ICON, LR_DEFAULTCOLOR, LR_LOADFROMFILE, MFT_SEPARATOR, MFT_STRING, MIIM_FTYPE, MIIM_ID,
    MIIM_STATE, MIIM_STRING, WM_DESTROY, WM_MENUCOMMAND, WM_QUIT,
};

fn info() -> WindowInfo {
    WindowInfo { hwnd: 0x1234, hinstance: 0x400000, hmenu: 0x77 }
}

fn handle() -> Window {
    Window::new(Some(Ok(info()))).unwrap()
}

fn add_entry(w: &mut Window, id: u32, label: &str) {
    let request = w.add_menu_entry(id, label);
    w.menu_item_added(&request, 1, 0).unwrap();
}

fn select(w: &Window, position: usize, received: &mut Vec<SystrayEvent>) {
    let context = Some(w.info());
    match window_proc(&context, WM_MENUCOMMAND, position, 0) {
        Dispatch::MenuCommand { hmenu, position } => {
            assert_eq!(hmenu, w.info().hmenu);
            if let Some(event) = menu_event(w.menu().item_id(position)) {
                received.push(event);
            }
        }
        other => panic!("unexpected decision {:?}", other),
    }
}

#[test]
fn selection_of_an_entry_yields_one_event_with_its_id() {
    let mut w = handle();
    add_entry(&mut w, 1, "Open");
    add_entry(&mut w, 2, "Exit");
    let mut received = Vec::new();
    select(&w, 2, &mut received);
    assert_eq!(received, vec![SystrayEvent { menu_index: 2 }]);
}

#[test]
fn events_keep_the_order_of_the_selections() {
    let mut w = handle();
    add_entry(&mut w, 1, "Open");
    add_entry(&mut w, 2, "Exit");
    let mut received = Vec::new();
    select(&w, 2, &mut received);
    select(&w, 1, &mut received);
    select(&w, 1, &mut received);
    select(&w, 2, &mut received);
    assert_eq!(
        received,
        vec![
            SystrayEvent { menu_index: 2 },
            SystrayEvent { menu_index: 1 },
            SystrayEvent { menu_index: 1 },
            SystrayEvent { menu_index: 2 },
        ]
    );
}

#[test]
fn selection_of_a_position_without_item_yields_no_event() {
    let mut w = handle();
    add_entry(&mut w, 1, "Open");
    add_entry(&mut w, 2, "Exit");
    let mut received = Vec::new();
    select(&w, 0, &mut received);
    select(&w, 3, &mut received);
    assert_eq!(received, vec![]);
}

#[test]
fn every_inserted_item_is_selected_by_its_id() {
    let mut w = handle();
    let ids = [10u32, 0, 7, 4_000_000_000, 3, 99];
    for (k, id) in ids.iter().enumerate() {
        if k % 2 == 0 {
            add_entry(&mut w, *id, "item");
        } else {
            let request = w.add_menu_separator(*id);
            w.menu_item_added(&request, 1, 0).unwrap();
        }
    }
    assert_eq!(w.menu().len(), ids.len());
    for id in ids {
        assert_eq!(w.menu().item_id(id), id);
        assert_eq!(menu_event(w.menu().item_id(id)), Some(SystrayEvent { menu_index: id }));
    }
    assert_eq!(w.menu().get(1), Some(MenuItem { position: 0, id: 0, kind: ItemKind::Separator }));
    assert_eq!(w.menu().get(2), Some(MenuItem { position: 7, id: 7, kind: ItemKind::Text }));
    assert_eq!(w.menu().get(6), None);
}

#[test]
fn item_with_the_id_of_no_selection_yields_no_event() {
    let mut w = handle();
    add_entry(&mut w, u32::MAX, "never");
    assert_eq!(w.menu().item_id(u32::MAX), u32::MAX);
    assert_eq!(menu_event(w.menu().item_id(u32::MAX)), None);
}

#[test]
fn new_hands_the_creation_error_on() {
    let e = Error::OsError(String::from("Error creating window: 1407"));
    match Window::new(Some(Err(e.clone()))) {
        Err(got) => assert_eq!(got, e),
        Ok(_) => panic!("a handle without a window"),
    }
}

#[test]
fn new_reports_a_thread_that_published_nothing() {
    match Window::new(None) {
        Err(got) => assert_eq!(got, Error::OsError(String::from("Error starting event loop: 0"))),
        Ok(_) => panic!("a handle without a window"),
    }
}

#[test]
fn new_handle_is_running_with_an_empty_menu() {
    let w = handle();
    assert_eq!(w.info(), info());
    assert!(w.is_running());
    assert_eq!(w.menu().len(), 0);
    assert_eq!(w.menu().item_id(0), u32::MAX);
}

#[test]
fn quit_posts_destroy_and_joins() {
    let mut w = handle();
    let q = w.quit();
    let post = PostMessage { hwnd: 0x1234, message: 2, w_param: 0, l_param: 0 };
    assert_eq!(q, Quit { post, join: true });
    assert_eq!(q.post.message, WM_DESTROY);
    assert!(!w.is_running());
}

#[test]
fn second_quit_has_nothing_to_join() {
    let mut w = handle();
    let first = w.quit();
    let second = w.quit();
    let third = w.quit();
    assert!(first.join);
    assert!(!second.join);
    assert!(!third.join);
    assert_eq!(second.post, first.post);
    assert!(!w.is_running());
}

#[test]
fn message_of_quit_ends_the_loop() {
    let mut w = handle();
    add_entry(&mut w, 1, "Open");
    let q = w.quit();
    for context in [None, Some(info())] {
        let d = window_proc(&context, q.post.message, q.post.w_param, q.post.l_param);
        assert_eq!(d, Dispatch::Destroy);
    }
    assert_eq!(run_loop(WM_QUIT), Pump::Stop);
    assert_eq!(run_loop(q.post.message), Pump::Dispatch);
}

#[test]
fn quit_keeps_window_and_menu() {
    let mut w = handle();
    add_entry(&mut w, 4, "Four");
    w.quit();
    assert_eq!(w.info(), info());
    assert_eq!(w.menu().item_id(4), 4);
}

#[test]
fn tooltip_request_modifies_the_tip_only() {
    let w = handle();
    let r = w.set_tooltip("Ready");
    assert_eq!(r.operation, Operation::SetTooltip);
    assert_eq!(r.command, 1);
    assert_eq!(r.command, NIM_MODIFY);
    assert_eq!(r.data.flags, 4);
    assert_eq!(r.data.flags, NIF_TIP);
    assert_eq!(r.data.hwnd, 0x1234);
    assert_eq!(r.data.id, 1);
    assert_eq!(r.data.callback_message, 0);
    assert_eq!(r.data.icon, 0);
    let mut tip = [0u16; 128];
    for (i, u) in "Ready".encode_utf16().enumerate() {
        tip[i] = u;
    }
    assert_eq!(r.data.tip, tip);
}

#[test]
fn tooltip_request_holds_wide_characters() {
    let w = handle();
    let r = w.set_tooltip("\u{e9}");
    assert_eq!(r.data.tip[0], 0x00E9);
    assert_eq!(r.data.tip[1], 0);
    let long = w.set_tooltip(&"\u{e9}".repeat(130));
    assert_eq!(long.data.tip, [0x00E9u16; 128]);
}

#[test]
fn tooltip_request_truncates_a_long_text() {
    let w = handle();
    let r = w.set_tooltip(&"t".repeat(129));
    assert_eq!(r.data.tip, [116u16; 128]);
    assert_eq!(r.finish(1, 0), Ok(()));
}

#[test]
fn tooltip_failure_is_reported() {
    let w = handle();
    let r = w.set_tooltip("Ready");
    assert_eq!(r.finish(0, 1008), Err(Error::OsError(String::from("Error setting tooltip: 1008"))));
}

#[test]
fn blank_icon_descriptor() {
    let nid = get_nid_struct(&0x1234);
    let blank = NotifyIconData {
        hwnd: 0x1234,
        id: 1,
        flags: 0,
        callback_message: 0,
        icon: 0,
        tip: [0u16; 128],
    };
    assert_eq!(nid, blank);
}

#[test]
fn entry_request() {
    let w = handle();
    let r = w.add_menu_entry(5, "Open");
    let item = MenuItemInfo {
        mask: 323,
        kind: 0,
        state: 0,
        id: 5,
        text: Some(vec![79u16, 112, 101, 110, 0]),
        cch: 8,
    };
    let expected = InsertMenuItem {
        operation: Operation::InsertMenuItem,
        hmenu: 0x77,
        position: 5,
        by_position: true,
        item,
    };
    assert_eq!(r, expected);
    assert_eq!(r.item.mask, MIIM_FTYPE | MIIM_STRING | MIIM_ID | MIIM_STATE);
    assert_eq!(r.item.kind, MFT_STRING);
    assert_eq!(r.item(), MenuItem { position: 5, id: 5, kind: ItemKind::Text });
}

#[test]
fn entry_request_declares_twice_the_byte_length() {
    let w = handle();
    assert_eq!(w.add_menu_entry(1, "").item.cch, 0);
    assert_eq!(w.add_menu_entry(1, "\u{e9}t\u{e9}").item.cch, 10);
    assert_eq!(w.add_menu_entry(1, "\u{1F600}").item.cch, 8);
}

#[test]
fn separator_request() {
    let w = handle();
    let r = w.add_menu_separator(3);
    let item = MenuItemInfo { mask: 258, kind: 2048, state: 0, id: 3, text: None, cch: 0 };
    let expected = InsertMenuItem {
        operation: Operation::InsertSeparator,
        hmenu: 0x77,
        position: 3,
        by_position: true,
        item,
    };
    assert_eq!(r, expected);
    assert_eq!(r.item.mask, MIIM_FTYPE | MIIM_ID);
    assert_eq!(r.item.kind, MFT_SEPARATOR);
    assert_eq!(r.item(), MenuItem { position: 3, id: 3, kind: ItemKind::Separator });
}

#[test]
fn failed_insertion_leaves_the_menu_unchanged() {
    let mut w = handle();
    add_entry(&mut w, 1, "Open");
    let r = w.add_menu_entry(2, "Exit");
    assert_eq!(
        w.menu_item_added(&r, 0, 1401),
        Err(Error::OsError(String::from("Error inserting menu item: 1401")))
    );
    let s = w.add_menu_separator(3);
    assert_eq!(
        w.menu_item_added(&s, 0, 8),
        Err(Error::OsError(String::from("Error inserting separator: 8")))
    );
    assert_eq!(w.menu().len(), 1);
    assert_eq!(w.menu().item_id(2), u32::MAX);
    assert_eq!(w.menu().item_id(3), u32::MAX);
    assert_eq!(w.menu().item_id(1), 1);
}

#[test]
fn latest_item_at_a_position_is_the_one_selected() {
    let mut w = handle();
    let mut m = systray::menu::Menu::new();
    m.insert(MenuItem { position: 1, id: 10, kind: ItemKind::Text });
    m.insert(MenuItem { position: 2, id: 20, kind: ItemKind::Text });
    m.insert(MenuItem { position: 1, id: 30, kind: ItemKind::Separator });
    assert_eq!(m.item_id(1), 30);
    assert_eq!(m.item_id(2), 20);
    assert_eq!(m.item_id(0), u32::MAX);
    add_entry(&mut w, 1, "one");
    assert_eq!(w.menu().item_id(1), 1);
}

#[test]
fn icon_request_modifies_the_image_only() {
    let w = handle();
    let r = w.set_icon(0xABC);
    let mut data = get_nid_struct(&0x1234);
    data.flags = 2;
    data.icon = 0xABC;
    assert_eq!(r, NotifyIcon { operation: Operation::SetIcon, command: 1, data });
    assert_eq!(r.data.flags, NIF_ICON);
    assert_eq!(r.finish(1, 0), Ok(()));
    assert_eq!(r.finish(0, 6), Err(Error::OsError(String::from("Error setting icon: 6"))));
}

#[test]
fn icon_from_resource_request() {
    let w = handle();
    let r = w.set_icon_from_resource("tray");
    let expected = LoadImage {
        operation: Operation::IconFromResource,
        hinstance: 0x400000,
        name: vec![116, 114, 97, 121, 0],
        kind: 1,
        width: 64,
        height: 64,
        flags: 0,
    };
    assert_eq!(r, expected);
    assert_eq!(r.kind, IMAGE_ICON);
}

#[test]
fn icon_from_file_request() {
    let w = handle();
    let r = w.set_icon_from_file("C:\\i.ico");
    let name: Vec<u16> = "C:\\i.ico\0".encode_utf16().collect();
    let expected = LoadImage {
        operation: Operation::IconFromFile,
        hinstance: 0,
        name,
        kind: 1,
        width: 64,
        height: 64,
        flags: 16,
    };
    assert_eq!(r, expected);
    assert_eq!(r.flags, LR_LOADFROMFILE);
}

#[test]
fn loaded_icon_is_applied() {
    let w = handle();
    let load = w.set_icon_from_file("i.ico");
    let r = w.icon_loaded(&load, 0xABC, 0).unwrap();
    assert_eq!(r, w.set_icon(0xABC));
}

#[test]
fn icon_that_was_not_loaded_is_reported() {
    let w = handle();
    let file = w.set_icon_from_file("i.ico");
    assert_eq!(
        w.icon_loaded(&file, 0, 2),
        Err(Error::OsError(String::from("Error setting icon from file: 2")))
    );
    assert_eq!(
        w.icon_loaded(&file, -1, 2),
        Err(Error::OsError(String::from("Error setting icon from file: 2")))
    );
    let resource = w.set_icon_from_resource("tray");
    assert_eq!(
        w.icon_loaded(&resource, 0, 1813),
        Err(Error::OsError(String::from("Error setting icon from resource: 1813")))
    );
    assert_eq!(
        w.icon_loaded(&resource, -1, 1813),
        Err(Error::OsError(String::from("Error setting icon from resource: 1813")))
    );
}

#[test]
fn icon_lookup_request() {
    let w = handle();
    let bytes = [0u8, 0, 1, 0, 1, 0, 9, 9];
    let r = w.set_icon_from_buffer(&bytes, 32, 16);
    let expected = LookupIcon { data: &bytes, icon: true, width: 32, height: 16, flags: 0 };
    assert_eq!(r, expected);
    assert_eq!(r.flags, LR_DEFAULTCOLOR);
    let wide = w.set_icon_from_buffer(&bytes, u32::MAX, 0x8000_0000);
    assert_eq!(wide.width, -1);
    assert_eq!(wide.height, i32::MIN);
}

#[test]
fn bytes_without_an_icon_directory_are_refused() {
    let w = handle();
    let bytes = [1u8, 2, 3, 4, 5, 6];
    let lookup = w.set_icon_from_buffer(&bytes, 32, 32);
    let refused = Err(Error::OsError(String::from("Error setting icon from buffer: 13")));
    assert_eq!(w.icon_located(&lookup, 0, 13), refused);
    let empty: [u8; 0] = [];
    let lookup = w.set_icon_from_buffer(&empty, 32, 32);
    assert_eq!(w.icon_located(&lookup, 0, 13), refused);
}

#[test]
fn offset_outside_the_bytes_is_refused() {
    let w = handle();
    let bytes = [1u8, 2, 3, 4, 5, 6];
    let lookup = w.set_icon_from_buffer(&bytes, 32, 32);
    let refused = Err(Error::OsError(String::from("Error setting icon from buffer: 0")));
    assert_eq!(w.icon_located(&lookup, 7, 0), refused);
    assert_eq!(w.icon_located(&lookup, i32::MAX, 0), refused);
    assert_eq!(w.icon_located(&lookup, -1, 0), refused);
    assert_eq!(w.icon_located(&lookup, i32::MIN, 0), refused);
}

#[test]
fn located_image_starts_at_the_offset() {
    let w = handle();
    let bytes = [1u8, 2, 3, 4, 5, 6];
    let lookup = w.set_icon_from_buffer(&bytes, 48, 24);
    let expected = CreateIcon {
        operation: Operation::LoadIconFromBuffer,
        data: &bytes[2..],
        size: 0,
        icon: true,
        version: 0x30000,
        width: 48,
        height: 24,
        flags: 0,
    };
    assert_eq!(w.icon_located(&lookup, 2, 0), Ok(expected));
    assert_eq!(w.icon_located(&lookup, 1, 0).unwrap().data, &bytes[1..]);
    assert_eq!(w.icon_located(&lookup, 6, 0).unwrap().data, &bytes[6..]);
}

#[test]
fn icon_that_could_not_be_made_is_never_applied() {
    let w = handle();
    let bytes = [1u8, 2, 3, 4, 5, 6];
    let lookup = w.set_icon_from_buffer(&bytes, 32, 32);
    let create = w.icon_located(&lookup, 2, 0).unwrap();
    assert_eq!(create.operation, Operation::LoadIconFromBuffer);
    for bad in [0isize, -1] {
        assert_eq!(
            w.icon_created(&create, bad, 1812),
            Err(Error::OsError(String::from("Cannot load icon from the buffer: 1812")))
        );
    }
    for good in [1isize, -2, 0x10003, isize::MAX, isize::MIN] {
        let r = w.icon_created(&create, good, 1812).unwrap();
        assert_eq!(r.data.icon, good);
        assert_eq!(r.operation, Operation::SetIcon);
        assert_eq!(r, w.set_icon(good));
    }
}

#[test]
fn shutdown_request_deletes_the_icon() {
    let w = handle();
    let r = w.shutdown();
    let mut data = get_nid_struct(&0x1234);
    data.flags = 2;
    assert_eq!(r, NotifyIcon { operation: Operation::DeleteIcon, command: 2, data });
    assert_eq!(r.command, NIM_DELETE);
    assert_eq!(r.finish(5, 0), Ok(()));
    assert_eq!(
        r.finish(0, 1168),
        Err(Error::OsError(String::from("Error deleting icon from menu: 1168")))
    );
    assert!(w.is_running());
}
