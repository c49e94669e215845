//! The creation protocol that the event loop's thread follows: register the
//! window class, create the hidden window, add the icon, create the popup menu
//! and set it to report selections by position.
//!
//! The protocol is a sequence of stages. At each stage the caller makes the
//! request of the stage, then hands the platform's reply to [`init_window`],
//! which either moves on, ends with the handles, or ends with the error of the
//! first request that failed.

use vstd::prelude::*;
use crate::error::{os_error_text, Error};
use crate::handle::{handle_is_valid, is_valid, WindowInfo};
use crate::native::{
    cw_usedefault, idi_application, mim_applytosubmenus, mim_style, mns_notifybypos,
    ws_overlappedwindow, CW_USEDEFAULT, IDI_APPLICATION, MIM_APPLYTOSUBMENUS, MIM_STYLE,
    MNS_NOTIFYBYPOS, WS_OVERLAPPEDWINDOW,
};
use crate::notify::{add_icon, NotifyIcon};
use crate::operation::{failure, failure_text, Operation};
use crate::text::{to_wstring, wide};

verus! {

/// The background brush of the window class.
pub const CLASS_BACKGROUND: isize = 16;

/// The window class to register.
#[derive(Clone, Debug, PartialEq, Eq)]
pub struct WindowClass {
    /// The class styles.
    pub style: u32,
    /// The name of the class, as a zero-terminated wide string.
    pub class_name: Vec<u16>,
    /// The identifier of the stock icon to load for the class.
    pub icon: usize,
    /// The identifier of the stock cursor to load for the class.
    pub cursor: usize,
    /// The background brush.
    pub background: isize,
}

/// The window to create.
#[derive(Clone, Debug, PartialEq, Eq)]
pub struct CreateWindow {
    /// The extended window styles.
    pub ex_style: u32,
    /// The name of the window's class, as a zero-terminated wide string.
    pub class_name: Vec<u16>,
    /// The window's title, as a zero-terminated wide string.
    pub title: Vec<u16>,
    /// The window styles.
    pub style: u32,
    pub x: i32,
    pub y: i32,
    pub width: i32,
    pub height: i32,
    /// The parent window; zero for none.
    pub parent: isize,
    /// The window's menu; zero for none.
    pub menu: isize,
    /// The instance that owns the window; zero for none.
    pub instance: isize,
}

/// The settings to give the popup menu.
#[derive(Clone, Copy, Debug, PartialEq, Eq, Structural)]
pub struct MenuInfo {
    /// Which settings are given.
    pub mask: u32,
    /// The menu's style.
    pub style: u32,
}

/// A stage of the protocol, named by the request that is made at it.
#[derive(Clone, Copy, Debug, PartialEq, Eq, Structural)]
pub enum Stage {
    RegisterClass,
    CreateWindow,
    AddIcon,
    CreateMenu,
    SetupMenu,
}

/// How far the protocol has come: the stage to carry out next and the handles
/// known by now, zero where there is none yet.
#[derive(Clone, Copy, Debug, PartialEq, Eq, Structural)]
pub struct Creation {
    pub stage: Stage,
    pub info: WindowInfo,
}

/// The request to make of the platform at a stage.
#[derive(Clone, Debug, PartialEq, Eq)]
pub enum Request {
    /// Register the class; the reply is the class's atom, zero for failure.
    RegisterClass(WindowClass),
    /// Create the window; the reply is its handle.
    CreateWindow(CreateWindow),
    /// Add the icon; the reply is the status, zero for failure.
    AddIcon(NotifyIcon),
    /// Create an empty popup menu; the reply is its handle.
    CreateMenu,
    /// Give the menu its settings; the reply is the status, zero for failure.
    SetupMenu { hmenu: isize, info: MenuInfo },
}

/// Where a reply leads.
#[derive(Clone, Debug, PartialEq, Eq)]
pub enum Step {
    /// On to the next stage.
    Next(Creation),
    /// The window, the icon and the menu exist.
    Created(WindowInfo),
    /// The request failed; nothing more is asked.
    Failed(Error),
}

/// A step, with the error given by its text.
pub enum StepView {
    Next(Creation),
    Created(WindowInfo),
    Failed(Seq<char>),
}

impl View for Step {
    type V = StepView;

    open spec fn view(&self) -> StepView {
        match *self {
            Step::Next(c) => StepView::Next(c),
            Step::Created(info) => StepView::Created(info),
            Step::Failed(e) => StepView::Failed(e.text()),
        }
    }
}

/// The name of the window class.
pub open spec fn class_name() -> Seq<char> {
    "my_window"@
}

/// The title of the hidden window.
pub open spec fn window_title() -> Seq<char> {
    "rust_systray_window"@
}

impl WindowClass {
    /// The class of the tray's hidden window.
    pub open spec fn is_tray_class(self) -> bool {
        &&& self.style == 0
        &&& self.class_name@ == wide(class_name())
        &&& self.icon == IDI_APPLICATION
        &&& self.cursor == IDI_APPLICATION
        &&& self.background == CLASS_BACKGROUND
    }
}

impl CreateWindow {
    /// The tray's hidden window: an overlapped window of the tray's class,
    /// placed by the system, without parent, menu or instance.
    pub open spec fn is_tray_window(self) -> bool {
        &&& self.ex_style == 0
        &&& self.class_name@ == wide(class_name())
        &&& self.title@ == wide(window_title())
        &&& self.style == WS_OVERLAPPEDWINDOW
        &&& self.x == CW_USEDEFAULT
        &&& self.y == 0
        &&& self.width == CW_USEDEFAULT
        &&& self.height == 0
        &&& self.parent == 0
        &&& self.menu == 0
        &&& self.instance == 0
    }
}

impl MenuInfo {
    /// The settings by which the menu, and its submenus, report a selection by
    /// the position of the selected item.
    pub open spec fn is_by_position(self) -> bool {
        &&& self.mask == MIM_APPLYTOSUBMENUS | MIM_STYLE
        &&& self.style == MNS_NOTIFYBYPOS
    }
}

impl Request {
    /// The request of the stage that `c` is at.
    pub open spec fn is_for(self, c: Creation) -> bool {
        match c.stage {
            Stage::RegisterClass => self is RegisterClass && self->RegisterClass_0.is_tray_class(),
            Stage::CreateWindow => self is CreateWindow && self->CreateWindow_0.is_tray_window(),
            Stage::AddIcon => self is AddIcon && self->AddIcon_0.is_add(c.info.hwnd),
            Stage::CreateMenu => self is CreateMenu,
            Stage::SetupMenu => self is SetupMenu && self->SetupMenu_hmenu == c.info.hmenu
                && self->SetupMenu_info.is_by_position(),
        }
    }
}

/// The start of the protocol for the instance `hinstance`.
pub open spec fn start_of(hinstance: isize) -> Creation {
    Creation { stage: Stage::RegisterClass, info: WindowInfo { hwnd: 0, hinstance, hmenu: 0 } }
}

/// Whether `reply` says that the request of `stage` failed: a status or an atom
/// of zero, a handle that names no object.
pub open spec fn reply_fails(stage: Stage, reply: isize) -> bool {
    match stage {
        Stage::RegisterClass => reply == 0,
        Stage::CreateWindow => !handle_is_valid(reply),
        Stage::AddIcon => reply == 0,
        Stage::CreateMenu => !handle_is_valid(reply),
        Stage::SetupMenu => reply == 0,
    }
}

/// The operation whose failure is reported when the request of `stage` fails.
/// Creating the menu and giving it its settings are one operation.
pub open spec fn operation_of(stage: Stage) -> Operation {
    match stage {
        Stage::RegisterClass => Operation::RegisterClass,
        Stage::CreateWindow => Operation::CreateWindow,
        Stage::AddIcon => Operation::AddIcon,
        Stage::CreateMenu => Operation::SetupMenu,
        Stage::SetupMenu => Operation::SetupMenu,
    }
}

/// Where the reply `reply` to the request of `c` leads, the platform's
/// last-error code being `last_error`.
pub open spec fn step_of(c: Creation, reply: isize, last_error: u32) -> StepView {
    if reply_fails(c.stage, reply) {
        StepView::Failed(os_error_text(failure_text(operation_of(c.stage)), last_error))
    } else {
        match c.stage {
            Stage::RegisterClass => StepView::Next(Creation { stage: Stage::CreateWindow, ..c }),
            Stage::CreateWindow => StepView::Next(
                Creation { stage: Stage::AddIcon, info: WindowInfo { hwnd: reply, ..c.info } },
            ),
            Stage::AddIcon => StepView::Next(Creation { stage: Stage::CreateMenu, ..c }),
            Stage::CreateMenu => StepView::Next(
                Creation { stage: Stage::SetupMenu, info: WindowInfo { hmenu: reply, ..c.info } },
            ),
            Stage::SetupMenu => StepView::Created(c.info),
        }
    }
}

/// Where the protocol stands after the replies `replies`, each with the
/// last-error code that went with it, were given from `c` on. Replies after
/// the end of the protocol count for nothing.
pub open spec fn run(c: Creation, replies: Seq<(isize, u32)>) -> StepView
    decreases replies.len(),
{
    if replies.len() == 0 {
        StepView::Next(c)
    } else {
        match step_of(c, replies[0].0, replies[0].1) {
            StepView::Next(next) => run(next, replies.skip(1)),
            end => end,
        }
    }
}

/// Starts the protocol for the instance `hinstance`.
pub fn start(hinstance: isize) -> (c: Creation)
    ensures
        c == start_of(hinstance),
{
    Creation { stage: Stage::RegisterClass, info: WindowInfo { hwnd: 0, hinstance, hmenu: 0 } }
}

/// The request to make of the platform at the stage that `c` is at.
pub fn request(c: &Creation) -> (r: Request)
    ensures
        r.is_for(*c),
{
    match c.stage {
        Stage::RegisterClass => Request::RegisterClass(
            WindowClass {
                style: 0,
                class_name: to_wstring("my_window"),
                icon: idi_application(),
                cursor: idi_application(),
                background: CLASS_BACKGROUND,
            },
        ),
        Stage::CreateWindow => Request::CreateWindow(
            CreateWindow {
                ex_style: 0,
                class_name: to_wstring("my_window"),
                title: to_wstring("rust_systray_window"),
                style: ws_overlappedwindow(),
                x: cw_usedefault(),
                y: 0,
                width: cw_usedefault(),
                height: 0,
                parent: 0,
                menu: 0,
                instance: 0,
            },
        ),
        Stage::AddIcon => Request::AddIcon(add_icon(c.info.hwnd)),
        Stage::CreateMenu => Request::CreateMenu,
        Stage::SetupMenu => Request::SetupMenu {
            hmenu: c.info.hmenu,
            info: MenuInfo { mask: mim_applytosubmenus() | mim_style(), style: mns_notifybypos() },
        },
    }
}

/// Judges the platform's reply to the request of `c` and moves on: to the next
/// stage, to the handles of what was created, or to the error of the request
/// that failed, which carries the platform's last-error code `last_error`.
pub fn init_window(c: Creation, reply: isize, last_error: u32) -> (step: Step)
    ensures
        step@ == step_of(c, reply, last_error),
{
    match c.stage {
        Stage::RegisterClass => {
            if reply == 0 {
                Step::Failed(failure(Operation::RegisterClass, last_error))
            } else {
                Step::Next(Creation { stage: Stage::CreateWindow, info: c.info })
            }
        },
        Stage::CreateWindow => {
            if !is_valid(reply) {
                Step::Failed(failure(Operation::CreateWindow, last_error))
            } else {
                Step::Next(
                    Creation {
                        stage: Stage::AddIcon,
                        info: WindowInfo {
                            hwnd: reply,
                            hinstance: c.info.hinstance,
                            hmenu: c.info.hmenu,
                        },
                    },
                )
            }
        },
        Stage::AddIcon => {
            if reply == 0 {
                Step::Failed(failure(Operation::AddIcon, last_error))
            } else {
                Step::Next(Creation { stage: Stage::CreateMenu, info: c.info })
            }
        },
        Stage::CreateMenu => {
            if !is_valid(reply) {
                Step::Failed(failure(Operation::SetupMenu, last_error))
            } else {
                Step::Next(
                    Creation {
                        stage: Stage::SetupMenu,
                        info: WindowInfo {
                            hwnd: c.info.hwnd,
                            hinstance: c.info.hinstance,
                            hmenu: reply,
                        },
                    },
                )
            }
        },
        Stage::SetupMenu => {
            if reply == 0 {
                Step::Failed(failure(Operation::SetupMenu, last_error))
            } else {
                Step::Created(c.info)
            }
        },
    }
}

/// What the event loop's thread does once the protocol has ended with
/// `created`, which it publishes to the owning thread in either case: with the
/// handles it keeps them as the context of its window procedure and enters the
/// message loop; with an error it ends without entering the loop.
pub fn event_loop_context(created: &Result<WindowInfo, Error>) -> (context: Option<WindowInfo>)
    ensures
        context == (match *created {
            Ok(info) => Some(info),
            Err(_) => None,
        }),
{
    match created {
        Ok(info) => Some(*info),
        Err(_) => None,
    }
}

/// The protocol ends with the handles exactly when none of its five requests
/// fails, and the handles are then those of the instance it was started for,
/// of the window that the second reply named and of the menu that the fourth
/// reply named, both of which name an object.
pub proof fn lemma_creation_succeeds(hinstance: isize, replies: Seq<(isize, u32)>)
    requires
        replies.len() == 5,
    ensures
        run(start_of(hinstance), replies) is Created <==> (replies[0].0 != 0 && handle_is_valid(
            replies[1].0,
        ) && replies[2].0 != 0 && handle_is_valid(replies[3].0) && replies[4].0 != 0),
        run(start_of(hinstance), replies) is Created ==> run(start_of(hinstance), replies)
            == StepView::Created(
            WindowInfo { hwnd: replies[1].0, hinstance, hmenu: replies[3].0 },
        ),
        run(start_of(hinstance), replies) is Created ==> handle_is_valid(replies[1].0)
            && handle_is_valid(replies[3].0),
        !(run(start_of(hinstance), replies) is Next),
{
    reveal_with_fuel(run, 6);
}

/// A reply that says that the request of a stage failed ends the protocol,
/// whatever replies follow it, with the error of that request: its description,
/// and the last-error code that went with the reply.
pub proof fn lemma_creation_ends_at_failure(c: Creation, replies: Seq<(isize, u32)>)
    requires
        replies.len() > 0,
        reply_fails(c.stage, replies[0].0),
    ensures
        run(c, replies) == StepView::Failed(
            os_error_text(failure_text(operation_of(c.stage)), replies[0].1),
        ),
{
}

} // verus!
