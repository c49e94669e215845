//! Verified core of a notification-area ("system tray") icon with a popup menu.
//!
//! The crate holds every decision the tray icon makes: how a window message is
//! classified, which descriptors are handed to the operating system, how a reply
//! of the operating system becomes a result, and how the creation and shutdown
//! handshakes proceed. Making the system calls themselves, running the thread and
//! moving events over a channel is left to the program that embeds the crate.

pub mod dispatch;
pub mod error;
pub mod event;
pub mod handle;
pub mod icon;
pub mod init;
pub mod menu;
pub mod native;
pub mod notify;
pub mod operation;
pub mod text;
pub mod window;

pub use error::Error;
pub use event::SystrayEvent;
pub use handle::WindowInfo;
pub use window::Window;
