//! Plugin API.
//!
//! Plugins are simple value types implementing [`Plugin`]. They can register IPC
//! commands, run startup hooks, and react to the application lifecycle.

use crate::error::RizonetError;
use crate::ipc::IpcHandler;
use vstd::prelude::*;

verus! {

/// A Rizonet plugin, for an app whose command handlers have type `F`.
///
/// Plugins get a chance to extend the [`IpcHandler`] (adding commands), and run
/// at application startup and shutdown. Methods are all optional except
/// [`Plugin::name`].
pub trait Plugin<F> {
    /// Unique plugin identifier. Used for logging and error messages.
    fn name(&self) -> (r: &str);

    /// Called once, before the webview is built. Return the (possibly extended)
    /// `IpcHandler`.
    fn register(&self, ipc: IpcHandler<F>) -> (r: IpcHandler<F>)
        default_ensures
            r == ipc,
    {
        ipc
    }

    /// Called once, after the webview has been built.
    fn on_start(&self) -> (r: Result<(), RizonetError>)
        default_ensures
            r is Ok,
    {
        Ok(())
    }

    /// Called once, when the application is about to exit.
    fn on_exit(&self) {
    }
}

} // verus!
