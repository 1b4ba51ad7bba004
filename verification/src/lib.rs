//! The state machine behind Windows Shell AppBars.
//!
//! An AppBar reserves space at an edge of a selected monitor, such as for a
//! desktop toolbar. This library decides what the native calls are asked to do
//! and what follows from what they return; it makes none of them itself. An
//! operation is a sequence of steps, and each step names the call that it needs
//! made or ends the operation.
//!
//! - [`AppBar`] is for applications that own their window procedure and forward
//!   native messages to [`AppBar::handle_window_message`].
//! - [`SubclassedAppBar`] is for windows of others: a window subclass sees the
//!   messages and forwards them.

pub mod app_bar;
pub mod app_bar_calls;
pub mod app_bar_laws;
pub mod error;
pub mod geometry;
pub mod handle;
pub mod lifecycle;
pub mod lifecycle_calls;
pub mod lifecycle_laws;
pub mod mock;
pub mod monitor;
pub mod platform;
pub mod subclass;
pub mod types;
pub mod win32;

pub use crate::app_bar::{AppBar, AppBarOperation, AppBarStep};
pub use crate::error::AppBarError;
pub use crate::handle::hwnd_from_window;
pub use crate::lifecycle::{
    AppBarCall, SubclassOperation, SubclassReply, SubclassRequest, SubclassStep,
};
pub use crate::monitor::enumerate_monitors;
pub use crate::platform::{AppBarData, Reply, Request};
pub use crate::subclass::{SubclassRegistry, SubclassState, SubclassedAppBar};
pub use crate::types::{Edge, MonitorInfo, MonitorRect, Rect, APP_BAR_CALLBACK_MESSAGE};
