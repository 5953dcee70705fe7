//! Coordination between a status-icon event loop and the application's main
//! window: the intent messages that the icon's menu produces, the dispatcher
//! that turns them into the shared visibility flag, and the watcher that turns
//! the flag into window commands on the UI thread.

pub mod tray;
pub mod dispatcher;
pub mod watcher;
pub mod bootstrap;
