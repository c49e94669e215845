//! The system calls that can fail, and how their replies are judged.

use vstd::prelude::*;
use crate::error::{get_win_os_error, os_error_text, Error};
use crate::handle::{handle_is_valid, is_valid};

verus! {

/// What can fail and is then reported to the caller: a system call, or the
/// start of the event loop's thread.
#[derive(Clone, Copy, Debug, PartialEq, Eq, Structural)]
pub enum Operation {
    /// Waiting for the event loop's thread to publish what it created.
    StartEventLoop,
    /// Registering the window class.
    RegisterClass,
    /// Creating the hidden window.
    CreateWindow,
    /// Adding the icon to the notification area.
    AddIcon,
    /// Setting the popup menu to report selections by position.
    SetupMenu,
    /// Changing the tooltip.
    SetTooltip,
    /// Inserting a text item into the menu.
    InsertMenuItem,
    /// Inserting a separator into the menu.
    InsertSeparator,
    /// Changing the icon's image.
    SetIcon,
    /// Loading an icon from the program's resources.
    IconFromResource,
    /// Loading an icon from a file.
    IconFromFile,
    /// Finding, in a buffer that holds an icon directory, the image that fits.
    IconFromBuffer,
    /// Making an icon from the image found in a buffer.
    LoadIconFromBuffer,
    /// Removing the icon from the notification area.
    DeleteIcon,
}

/// The description that the error of a failed operation starts with.
pub open spec fn failure_text(op: Operation) -> Seq<char> {
    match op {
        Operation::StartEventLoop => "Error starting event loop"@,
        Operation::RegisterClass => "Error creating window class"@,
        Operation::CreateWindow => "Error creating window"@,
        Operation::AddIcon => "Error adding menu icon"@,
        Operation::SetupMenu => "Error setting up menu"@,
        Operation::SetTooltip => "Error setting tooltip"@,
        Operation::InsertMenuItem => "Error inserting menu item"@,
        Operation::InsertSeparator => "Error inserting separator"@,
        Operation::SetIcon => "Error setting icon"@,
        Operation::IconFromResource => "Error setting icon from resource"@,
        Operation::IconFromFile => "Error setting icon from file"@,
        Operation::IconFromBuffer => "Error setting icon from buffer"@,
        Operation::LoadIconFromBuffer => "Cannot load icon from the buffer"@,
        Operation::DeleteIcon => "Error deleting icon from menu"@,
    }
}

/// The result of an operation that the platform answered with `status`, zero
/// meaning failure, while its last-error code was `last_error`.
pub open spec fn status_result(op: Operation, status: i32, last_error: u32, r: Result<(), Error>) -> bool {
    if status == 0 {
        r is Err && r->Err_0.text() == os_error_text(failure_text(op), last_error)
    } else {
        r is Ok
    }
}

/// The result of an operation that the platform answered with `handle`, while
/// its last-error code was `last_error`: the handle if it names an object.
pub open spec fn handle_result(op: Operation, handle: isize, last_error: u32, r: Result<isize, Error>) -> bool {
    if handle_is_valid(handle) {
        r == Ok::<isize, Error>(handle)
    } else {
        r is Err && r->Err_0.text() == os_error_text(failure_text(op), last_error)
    }
}

/// The description that the error of a failed operation starts with.
pub fn failure_message(op: Operation) -> (s: &'static str)
    ensures
        s@ == failure_text(op),
{
    match op {
        Operation::StartEventLoop => "Error starting event loop",
        Operation::RegisterClass => "Error creating window class",
        Operation::CreateWindow => "Error creating window",
        Operation::AddIcon => "Error adding menu icon",
        Operation::SetupMenu => "Error setting up menu",
        Operation::SetTooltip => "Error setting tooltip",
        Operation::InsertMenuItem => "Error inserting menu item",
        Operation::InsertSeparator => "Error inserting separator",
        Operation::SetIcon => "Error setting icon",
        Operation::IconFromResource => "Error setting icon from resource",
        Operation::IconFromFile => "Error setting icon from file",
        Operation::IconFromBuffer => "Error setting icon from buffer",
        Operation::LoadIconFromBuffer => "Cannot load icon from the buffer",
        Operation::DeleteIcon => "Error deleting icon from menu",
    }
}

/// The error of the failed operation `op`.
pub fn failure(op: Operation, last_error: u32) -> (e: Error)
    ensures
        e.text() == os_error_text(failure_text(op), last_error),
{
    get_win_os_error(failure_message(op), last_error)
}

/// Judges the status that the platform answered `op` with: zero is a failure,
/// reported with the platform's last-error code `last_error`.
pub fn check_status(op: Operation, status: i32, last_error: u32) -> (r: Result<(), Error>)
    ensures
        status_result(op, status, last_error, r),
{
    if status == 0 {
        Err(failure(op, last_error))
    } else {
        Ok(())
    }
}

/// Judges the handle that the platform answered `op` with: zero and minus one
/// are failures, reported with the platform's last-error code `last_error`.
pub fn check_handle(op: Operation, handle: isize, last_error: u32) -> (r: Result<isize, Error>)
    ensures
        handle_result(op, handle, last_error, r),
{
    if is_valid(handle) {
        Ok(handle)
    } else {
        Err(failure(op, last_error))
    }
}

} // verus!
