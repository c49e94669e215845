//! The tray handle: what the owning thread holds of a live tray icon.
//!
//! Every operation is made in two steps. The first yields the request that is
//! to be made of the platform; the second takes the platform's answer and yields
//! the operation's result. Between the two the caller makes the system call.

use vstd::prelude::*;
use vstd::slice::slice_subrange;
use vstd::string::StringSliceAdditionalSpecFns;
use crate::dispatch::{dispatch_of, pump_of, Dispatch, Pump};
use crate::error::{os_error_text, Error};
use crate::handle::{handle_is_valid, WindowInfo};
use crate::icon::{offset_is_valid, CreateIcon, LoadImage, LookupIcon, ICON_SIZE, ICON_VERSION};
use crate::menu::{get_menu_item_struct, InsertMenuItem, ItemKind, Menu, MenuItem};
use crate::native::{
    image_icon, lr_defaultcolor, lr_loadfromfile, mft_separator, mft_string, miim_ftype, miim_id,
    miim_state, miim_string, nif_icon, nif_tip, nim_delete, nim_modify, wm_destroy, WM_DESTROY,
    WM_QUIT,
};
use crate::notify::{get_nid_struct, NotifyIcon};
use crate::operation::{check_handle, check_status, failure, failure_text, status_result, Operation};
use crate::text::{to_wstring, tooltip_field};

verus! {

/// One request to post a message to a window.
#[derive(Clone, Copy, Debug, PartialEq, Eq, Structural)]
pub struct PostMessage {
    pub hwnd: isize,
    pub message: u32,
    pub w_param: usize,
    pub l_param: isize,
}

/// What is to be done to end the event loop: post `post`, then, if `join` is
/// set, wait for the event loop's thread to end.
#[derive(Clone, Copy, Debug, PartialEq, Eq, Structural)]
pub struct Quit {
    pub post: PostMessage,
    pub join: bool,
}

/// What a tray handle stands for: the handles of its window, whether the thread
/// of its event loop is still to be joined, and the items of its menu in the
/// order of their insertion.
pub struct WindowState {
    pub info: WindowInfo,
    pub running: bool,
    pub menu: Seq<MenuItem>,
}

/// The handle of a live tray icon.
#[derive(Debug)]
pub struct Window {
    info: WindowInfo,
    running: bool,
    menu: Menu,
}

impl View for Window {
    type V = WindowState;

    closed spec fn view(&self) -> WindowState {
        WindowState { info: self.info, running: self.running, menu: self.menu@ }
    }
}

/// The handle that a finished creation yields.
pub open spec fn created_state(info: WindowInfo) -> WindowState {
    WindowState { info, running: true, menu: Seq::empty() }
}

/// What `quit` asks for in the state `s`, and the state it leaves: the destroy
/// message is posted to the window, and the thread is joined if it has not been.
pub open spec fn quit_of(s: WindowState) -> (Quit, WindowState) {
    (
        Quit {
            post: PostMessage { hwnd: s.info.hwnd, message: WM_DESTROY, w_param: 0, l_param: 0 },
            join: s.running,
        },
        WindowState { running: false, ..s },
    )
}

impl Window {
    /// Ends the creation handshake on the owning thread's side. `published` is
    /// what was received from the event loop's thread: the handles of the
    /// window it made, the first error it met, or nothing if the thread ended
    /// without publishing either, which is the failure to start the event
    /// loop, reported with the code zero.
    pub fn new(published: Option<Result<WindowInfo, Error>>) -> (r: Result<Window, Error>)
        ensures
            match published {
                Some(Ok(info)) => r is Ok && r->Ok_0@ == created_state(info),
                Some(Err(e)) => r is Err && r->Err_0 == e,
                None => r is Err && r->Err_0.text() == os_error_text(
                    failure_text(Operation::StartEventLoop),
                    0,
                ),
            },
    {
        match published {
            Some(Ok(info)) => Ok(Window { info, running: true, menu: Menu::new() }),
            Some(Err(e)) => Err(e),
            None => Err(failure(Operation::StartEventLoop, 0)),
        }
    }

    /// The handles of the window.
    pub fn info(&self) -> (info: WindowInfo)
        ensures
            info == self@.info,
    {
        self.info
    }

    /// Whether the thread of the event loop is still to be joined.
    pub fn is_running(&self) -> (b: bool)
        ensures
            b == self@.running,
    {
        self.running
    }

    /// The items of the menu.
    pub fn menu(&self) -> (menu: &Menu)
        ensures
            menu@ == self@.menu,
    {
        &self.menu
    }

    /// Ends the event loop: yields the destroy message to post to the window
    /// and tells whether the thread is to be joined after that. It is joined
    /// once: from the second call on there is nothing left to wait for.
    pub fn quit(&mut self) -> (q: Quit)
        ensures
            (q, final(self)@) == quit_of(old(self)@),
    {
        let join = self.running;
        self.running = false;
        Quit {
            post: PostMessage { hwnd: self.info.hwnd, message: wm_destroy(), w_param: 0, l_param: 0 },
            join,
        }
    }

    /// The request that sets the tooltip to `tooltip`. A text with more wide
    /// characters than the tooltip field holds is cut at the field's capacity.
    pub fn set_tooltip(&self, tooltip: &str) -> (request: NotifyIcon)
        ensures
            request.is_tooltip(self@.info.hwnd, tooltip@),
    {
        let mut nid = get_nid_struct(&self.info.hwnd);
        nid.tip = tooltip_field(tooltip);
        nid.flags = nif_tip();
        NotifyIcon { operation: Operation::SetTooltip, command: nim_modify(), data: nid }
    }

    /// The request that inserts the text item `item_name` with the id
    /// `item_idx` into the menu, at the position `item_idx`.
    pub fn add_menu_entry(&self, item_idx: u32, item_name: &str) -> (request: InsertMenuItem)
        ensures
            request.is_entry(
                self@.info.hmenu,
                item_idx,
                item_name@,
                item_name.spec_bytes().len(),
            ),
            request.inserted() == (MenuItem {
                position: item_idx,
                id: item_idx,
                kind: ItemKind::Text,
            }),
    {
        let st = to_wstring(item_name);
        let mut item = get_menu_item_struct();
        item.mask = miim_ftype() | miim_string() | miim_id() | miim_state();
        item.kind = mft_string();
        item.id = item_idx;
        item.text = Some(st);
        let len: u64 = item_name.as_bytes().len() as u64;
        let half: u64 = len % 0x8000_0000;
        assert(half * 2 == (2 * len) % 0x1_0000_0000);
        item.cch = (half * 2) as u32;
        InsertMenuItem {
            operation: Operation::InsertMenuItem,
            hmenu: self.info.hmenu,
            position: item_idx,
            by_position: true,
            item,
        }
    }

    /// The request that inserts a separator with the id `item_idx` into the
    /// menu, at the position `item_idx`.
    pub fn add_menu_separator(&self, item_idx: u32) -> (request: InsertMenuItem)
        ensures
            request.is_separator(self@.info.hmenu, item_idx),
            request.inserted() == (MenuItem {
                position: item_idx,
                id: item_idx,
                kind: ItemKind::Separator,
            }),
    {
        let mut item = get_menu_item_struct();
        item.mask = miim_ftype() | miim_id();
        item.kind = mft_separator();
        item.id = item_idx;
        InsertMenuItem {
            operation: Operation::InsertSeparator,
            hmenu: self.info.hmenu,
            position: item_idx,
            by_position: true,
            item,
        }
    }

    /// Judges the platform's answer to the insertion `request`. A zero `status`
    /// is the failure of the request's operation and leaves the menu as it
    /// was; any other adds the request's item to the menu.
    pub fn menu_item_added(&mut self, request: &InsertMenuItem, status: i32, last_error: u32) -> (r:
        Result<(), Error>)
        ensures
            status_result(request.operation, status, last_error, r),
            final(self)@ == (if status == 0 {
                old(self)@
            } else {
                WindowState { menu: old(self)@.menu.push(request.inserted()), ..old(self)@ }
            }),
    {
        let r = check_status(request.operation, status, last_error);
        if status != 0 {
            self.menu.insert(request.item());
        }
        r
    }

    /// The request that sets the icon's image to `icon`.
    pub fn set_icon(&self, icon: isize) -> (request: NotifyIcon)
        ensures
            request.is_icon(self@.info.hwnd, icon),
    {
        let mut nid = get_nid_struct(&self.info.hwnd);
        nid.flags = nif_icon();
        nid.icon = icon;
        NotifyIcon { operation: Operation::SetIcon, command: nim_modify(), data: nid }
    }

    /// The request that loads the icon named `resource_name` from the
    /// resources of the window's instance.
    pub fn set_icon_from_resource(&self, resource_name: &str) -> (request: LoadImage)
        ensures
            request.is_resource(self@.info.hinstance, resource_name@),
    {
        LoadImage {
            operation: Operation::IconFromResource,
            hinstance: self.info.hinstance,
            name: to_wstring(resource_name),
            kind: image_icon(),
            width: ICON_SIZE,
            height: ICON_SIZE,
            flags: 0,
        }
    }

    /// The request that loads the icon in the file `icon_file`.
    pub fn set_icon_from_file(&self, icon_file: &str) -> (request: LoadImage)
        ensures
            request.is_file(icon_file@),
    {
        LoadImage {
            operation: Operation::IconFromFile,
            hinstance: 0,
            name: to_wstring(icon_file),
            kind: image_icon(),
            width: ICON_SIZE,
            height: ICON_SIZE,
            flags: lr_loadfromfile(),
        }
    }

    /// The request that looks, in the icon directory that `buffer` holds, for
    /// the image of the given size.
    pub fn set_icon_from_buffer<'a>(&self, buffer: &'a [u8], width: u32, height: u32) -> (request:
        LookupIcon<'a>)
        ensures
            request.is_for(buffer@, width, height),
    {
        LookupIcon {
            data: buffer,
            icon: true,
            width: #[verifier::truncate] (width as i32),
            height: #[verifier::truncate] (height as i32),
            flags: lr_defaultcolor(),
        }
    }

    /// Judges the offset at which the platform found the image that `lookup`
    /// asked for. An offset of zero says that the bytes hold no icon directory
    /// with a fitting image; that and an offset outside the bytes are the
    /// failure of the lookup. Any other offset yields the request that makes an
    /// icon from the bytes that start there.
    pub fn icon_located<'a>(&self, lookup: &LookupIcon<'a>, offset: i32, last_error: u32) -> (r:
        Result<CreateIcon<'a>, Error>)
        ensures
            offset_is_valid(lookup.data@, offset) ==> r is Ok && r->Ok_0.follows(
                *lookup,
                offset as int,
            ),
            !offset_is_valid(lookup.data@, offset) ==> r is Err && r->Err_0.text() == os_error_text(
                failure_text(Operation::IconFromBuffer),
                last_error,
            ),
    {
        let buffer = lookup.data;
        if offset <= 0 || offset as usize > buffer.len() {
            return Err(failure(Operation::IconFromBuffer, last_error));
        }
        let icon_data = slice_subrange(buffer, offset as usize, buffer.len());
        Ok(
            CreateIcon {
                operation: Operation::LoadIconFromBuffer,
                data: icon_data,
                size: 0,
                icon: true,
                version: ICON_VERSION,
                width: lookup.width,
                height: lookup.height,
                flags: lr_defaultcolor(),
            },
        )
    }

    /// Judges the handle that the platform answered the loading `request`
    /// with. A handle that names no object is the failure of the request's
    /// operation; any other yields the request that sets the icon's image to
    /// it.
    pub fn icon_loaded(&self, request: &LoadImage, handle: isize, last_error: u32) -> (r: Result<
        NotifyIcon,
        Error,
    >)
        ensures
            self.applies(request.operation, handle, last_error, r),
    {
        self.icon_obtained(request.operation, handle, last_error)
    }

    /// Judges the handle that the platform answered `request`, the making of
    /// an icon from the image found in a buffer, with. A handle that names no
    /// object is the failure of the request's operation; any other yields the
    /// request that sets the icon's image to it.
    pub fn icon_created(&self, request: &CreateIcon, handle: isize, last_error: u32) -> (r: Result<
        NotifyIcon,
        Error,
    >)
        ensures
            self.applies(request.operation, handle, last_error, r),
    {
        self.icon_obtained(request.operation, handle, last_error)
    }

    /// What becomes of a handle obtained for `operation`: the request that
    /// sets the icon's image to it if it names an object, the failure of
    /// `operation` if not. No request is ever made with a handle that names no
    /// object.
    pub open spec fn applies(
        &self,
        operation: Operation,
        handle: isize,
        last_error: u32,
        r: Result<NotifyIcon, Error>,
    ) -> bool {
        &&& handle_is_valid(handle) ==> r is Ok && r->Ok_0.is_icon(self@.info.hwnd, handle)
        &&& !handle_is_valid(handle) ==> r is Err && r->Err_0.text() == os_error_text(
            failure_text(operation),
            last_error,
        )
        &&& r is Ok ==> handle_is_valid(r->Ok_0.data.icon)
    }

    fn icon_obtained(&self, operation: Operation, handle: isize, last_error: u32) -> (r: Result<
        NotifyIcon,
        Error,
    >)
        ensures
            self.applies(operation, handle, last_error, r),
    {
        match check_handle(operation, handle, last_error) {
            Ok(icon) => Ok(self.set_icon(icon)),
            Err(e) => Err(e),
        }
    }

    /// The request that removes the icon from the notification area. It does
    /// not touch the event loop.
    pub fn shutdown(&self) -> (request: NotifyIcon)
        ensures
            request.is_delete(self@.info.hwnd),
    {
        let mut nid = get_nid_struct(&self.info.hwnd);
        nid.flags = nif_icon();
        NotifyIcon { operation: Operation::DeleteIcon, command: nim_delete(), data: nid }
    }
}

/// Whatever the state of a handle, a second `quit` asks for no join: there is
/// nothing left that it could block on.
pub proof fn lemma_quit_joins_once(s: WindowState)
    ensures
        !quit_of(quit_of(s).1).0.join,
        quit_of(quit_of(s).1).1 == quit_of(s).1,
{
}

/// The message that `quit` posts ends the event loop: it goes to the handle's
/// window, the window procedure answers it, whatever its context, by asking the
/// loop to end, and the loop stops on the quit message that this brings. A
/// handle whose thread has not been joined is told to join it.
pub proof fn lemma_quit_ends_loop(s: WindowState, context: Option<WindowInfo>)
    ensures
        ({
            let q = quit_of(s).0;
            &&& q.post.hwnd == s.info.hwnd
            &&& dispatch_of(context, q.post.message, q.post.w_param, q.post.l_param)
                == Dispatch::Destroy
            &&& s.running ==> q.join
        }),
        pump_of(WM_QUIT) == Pump::Stop,
        !quit_of(s).1.running,
{
}

} // verus!
