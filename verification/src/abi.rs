//! The values that cross the plugin boundary, as plain data.
//!
//! Each record keeps the fields of its binary counterpart in declaration
//! order. A nullable string is an `Option<CText>`, a nullable entry point an
//! `Option`, and an opaque pointer the address it holds.

use crate::ctext::CText;
use vstd::prelude::*;

verus! {

/// Version of the binary interface that the descriptor announces.
pub const ABI_VERSION: u32 = 1;

/// Severity of an informational log line.
pub const LOG_INFO: i32 = 0;

/// Opaque handle of one plugin state: a pointer-sized value whose meaning
/// only the plugin knows.
pub type StateHandle = usize;

/// The handle that stands for no state.
pub const NULL_STATE: StateHandle = 0;

/// One of the plugin's own entry points, named instead of addressed.
#[derive(Clone, Copy, Debug, PartialEq, Eq, Hash, Structural)]
pub enum PluginCallback {
    /// Creates a state.
    Load,
    /// Destroys a state.
    Unload,
    /// Runs once per frame.
    Update,
    /// Draws the plugin's part of the interface.
    Gui,
    /// Answers a click on the plugin's menu entry.
    MenuClick,
}

/// Entry point of a host service, kept as the address the host handed over.
/// The library never calls through it.
#[derive(Clone, Copy, Debug, PartialEq, Eq, Hash, Structural)]
pub struct HostFn {
    pub addr: usize,
}

/// Capability table that the host supplies at load time. A service that the
/// host does not offer is `None`.
#[derive(Clone, Copy, Debug, PartialEq, Eq, Structural)]
pub struct ParallaxHostContextC {
    pub register_menu_item: Option<HostFn>,
    pub log: Option<HostFn>,
    pub host_user_data: usize,
}

/// Menu entry handed to the host's registration service.
#[derive(Clone, Debug, PartialEq, Eq)]
pub struct ParallaxMenuItemC {
    pub menu_path: Option<CText>,
    pub icon: Option<CText>,
    pub shortcut: Option<CText>,
    pub callback: Option<PluginCallback>,
    pub user_data: StateHandle,
    pub separator: bool,
}

/// What a menu entry holds, each string by its content.
pub struct MenuItemModel {
    pub menu_path: Option<Seq<u8>>,
    pub icon: Option<Seq<u8>>,
    pub shortcut: Option<Seq<u8>>,
    pub callback: Option<PluginCallback>,
    pub user_data: StateHandle,
    pub separator: bool,
}

impl View for ParallaxMenuItemC {
    type V = MenuItemModel;

    open spec fn view(&self) -> MenuItemModel {
        MenuItemModel {
            menu_path: self.menu_path.deep_view(),
            icon: self.icon.deep_view(),
            shortcut: self.shortcut.deep_view(),
            callback: self.callback,
            user_data: self.user_data,
            separator: self.separator,
        }
    }
}

/// Metadata of the plugin.
#[derive(Clone, Debug, PartialEq, Eq)]
pub struct ParallaxPluginInfoC {
    pub name: Option<CText>,
    pub version: Option<CText>,
    pub author: Option<CText>,
    pub description: Option<CText>,
    pub dependencies: Vec<CText>,
    pub dependency_count: u32,
}

/// What the metadata hold, each string by its content.
pub struct PluginInfoModel {
    pub name: Option<Seq<u8>>,
    pub version: Option<Seq<u8>>,
    pub author: Option<Seq<u8>>,
    pub description: Option<Seq<u8>>,
    pub dependencies: Seq<Seq<u8>>,
    pub dependency_count: u32,
}

impl View for ParallaxPluginInfoC {
    type V = PluginInfoModel;

    open spec fn view(&self) -> PluginInfoModel {
        PluginInfoModel {
            name: self.name.deep_view(),
            version: self.version.deep_view(),
            author: self.author.deep_view(),
            description: self.description.deep_view(),
            dependencies: self.dependencies.deep_view(),
            dependency_count: self.dependency_count,
        }
    }
}

/// The descriptor that the entry point returns.
#[derive(Clone, Debug, PartialEq, Eq)]
pub struct ParallaxPluginApi {
    pub abi_version: u32,
    pub info: ParallaxPluginInfoC,
    pub on_load: Option<PluginCallback>,
    pub on_unload: Option<PluginCallback>,
    pub on_update: Option<PluginCallback>,
    pub on_gui: Option<PluginCallback>,
}

/// What a descriptor holds.
pub struct PluginApiModel {
    pub abi_version: u32,
    pub info: PluginInfoModel,
    pub on_load: Option<PluginCallback>,
    pub on_unload: Option<PluginCallback>,
    pub on_update: Option<PluginCallback>,
    pub on_gui: Option<PluginCallback>,
}

impl View for ParallaxPluginApi {
    type V = PluginApiModel;

    open spec fn view(&self) -> PluginApiModel {
        PluginApiModel {
            abi_version: self.abi_version,
            info: self.info@,
            on_load: self.on_load,
            on_unload: self.on_unload,
            on_update: self.on_update,
            on_gui: self.on_gui,
        }
    }
}

/// A call into the host that the plugin has decided on. Whoever drives the
/// library performs the calls it gets, in the order it gets them.
#[derive(Clone, Debug, PartialEq, Eq)]
pub enum HostCall {
    /// Call `entry` with the menu entry and the host's own data.
    RegisterMenuItem { entry: HostFn, item: ParallaxMenuItemC, user_data: usize },
    /// Call `entry` with the severity, the message and the host's own data.
    Log { entry: HostFn, level: i32, message: CText, user_data: usize },
}

/// What a call into the host holds.
pub enum HostCallModel {
    RegisterMenuItem { entry: HostFn, item: MenuItemModel, user_data: usize },
    Log { entry: HostFn, level: i32, message: Seq<u8>, user_data: usize },
}

impl DeepView for ParallaxMenuItemC {
    type V = MenuItemModel;

    open spec fn deep_view(&self) -> MenuItemModel {
        self@
    }
}

impl DeepView for HostCall {
    type V = HostCallModel;

    open spec fn deep_view(&self) -> HostCallModel {
        self@
    }
}

impl View for HostCall {
    type V = HostCallModel;

    open spec fn view(&self) -> HostCallModel {
        match *self {
            HostCall::RegisterMenuItem { entry, item, user_data } => HostCallModel::RegisterMenuItem {
                entry,
                item: item@,
                user_data,
            },
            HostCall::Log { entry, level, message, user_data } => HostCallModel::Log {
                entry,
                level,
                message: message@,
                user_data,
            },
        }
    }
}

} // verus!
