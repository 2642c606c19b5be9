//! # Rizonet Core
//!
//! The verified core of a desktop-app framework that combines a small footprint
//! with consistent rendering through a hybrid runtime bootstrap.
//!
//! ## Modules
//! - [`config`]    — the contents of `rizonet.config.json`.
//! - [`runtime`]   — chooses and detects the WebView runtime.
//! - [`bootstrap`] — fetches, verifies and caches the bundled runtime.
//! - [`ipc`]       — the JS ⇄ Rust bridge.
//! - [`api`]       — [`AppHandle`], user events and the built-in commands.
//! - [`app`]       — the application builder and event loop.
//! - [`assets`]    — the asset protocol.
//! - [`plugin`]    — the trait-based plugin API.
//! - [`updater`]   — the minimal auto-updater.
//! - [`state`]     — type-indexed shared state.
//! - [`acl`]       — capability-based IPC access control.
//! - [`iconify`]   — image to `.ico` conversion.
//! - [`cli`]       — the `rizonet` command line.
//!
//! [`text`], [`assoc`], [`name_map`], [`json`], [`version`] and [`checksum`] are the
//! building blocks of these.

pub mod acl;
pub mod api;
pub mod app;
pub mod assets;
pub mod assoc;
pub mod bootstrap;
pub mod checksum;
pub mod cli;
pub mod config;
pub mod error;
pub mod iconify;
pub mod ipc;
pub mod json;
pub mod name_map;
pub mod plugin;
pub mod runtime;
pub mod state;
pub mod text;
pub mod updater;
pub mod version;

pub use acl::CapabilitiesConfig;
pub use api::event::{AppHandle, UserEvent, WindowOp};
pub use app::{App, AppBuilder};
pub use config::{RizonetConfig, RuntimeMode};
pub use error::RizonetError;
pub use ipc::{Invoke, IpcHandler};
pub use plugin::Plugin;
pub use runtime::{ResolvedRuntime, RuntimeKind};
pub use state::StateMap;
pub use updater::{platform_key, Artifact, UpdateInfo, UpdateManifest};
