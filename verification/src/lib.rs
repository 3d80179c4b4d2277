//! Lifecycle core of the Parallax example plugin.
//!
//! The plugin exchanges opaque handles, capability tables and NUL-terminated
//! strings with its host. This crate holds the decisions behind that exchange
//! as verified code on plain values: which states are alive, which handle a
//! load hands out, and which host services have to be called, with which
//! arguments and in which order. The code that sits on the binary boundary
//! performs those calls and turns handles into pointers.

pub mod abi;
pub mod ctext;
pub mod descriptor;
pub mod host;
pub mod laws;
pub mod plugin;

pub use abi::{
    HostCall, HostFn, ParallaxHostContextC, ParallaxMenuItemC, ParallaxPluginApi,
    ParallaxPluginInfoC, PluginCallback, StateHandle, ABI_VERSION, LOG_INFO, NULL_STATE,
};
pub use ctext::CText;
pub use descriptor::ParallaxGetPluginApi;
pub use host::host_log;
pub use plugin::{build_menu_item, PluginRegistry, PluginState};
