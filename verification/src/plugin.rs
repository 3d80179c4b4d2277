//! The plugin's states and its lifecycle callbacks.
//!
//! A state is created by a load and destroyed by the matching unload. The
//! registry owns the states and hands out their handles; it never hands out
//! the same handle twice, so a handle that outlived its state finds nothing.

use crate::abi::{
    HostCall, HostCallModel, MenuItemModel, ParallaxHostContextC, ParallaxMenuItemC,
    PluginCallback, StateHandle, LOG_INFO, NULL_STATE,
};
use crate::ctext::{c_text, CText};
use crate::host::{host_log, log_call};
use std::collections::HashMap;
use vstd::prelude::*;

verus! {

broadcast use vstd::std_specs::hash::group_hash_axioms;

/// Path of the menu entry that a load registers.
pub const MENU_PATH: &'static str = "Plugins/Rust Example/Hello from Rust";

/// Keyboard shortcut of that menu entry.
pub const MENU_SHORTCUT: &'static str = "Ctrl+Shift+R";

/// Log line of a load.
pub const LOADED_MESSAGE: &'static str = "Rust plugin loaded";

/// Log line of a click on the menu entry.
pub const CLICKED_MESSAGE: &'static str = "Rust plugin menu item clicked";

/// What the plugin keeps between the calls of one load: the capability table
/// it was loaded with.
#[derive(Clone, Copy, Debug, PartialEq, Eq, Structural)]
pub struct PluginState {
    pub host: ParallaxHostContextC,
}

/// The menu entry of the state `handle`: fixed path and shortcut, no icon, no
/// separator, the click handler as callback and the handle as its argument.
pub open spec fn menu_item(handle: StateHandle) -> MenuItemModel {
    MenuItemModel {
        menu_path: c_text(MENU_PATH@),
        icon: None,
        shortcut: c_text(MENU_SHORTCUT@),
        callback: Some(PluginCallback::MenuClick),
        user_data: handle,
        separator: false,
    }
}

/// The calls of a successful load, in order: the registration of the menu
/// entry where the host registers menu entries, then the log line.
pub open spec fn load_calls(host: ParallaxHostContextC, handle: StateHandle) -> Seq<
    HostCallModel,
> {
    let registration = match host.register_menu_item {
        Some(entry) => seq![
            HostCallModel::RegisterMenuItem {
                entry,
                item: menu_item(handle),
                user_data: host.host_user_data,
            },
        ],
        None => Seq::empty(),
    };
    let log_line = match log_call(Some(&host), LOG_INFO, LOADED_MESSAGE@) {
        Some(call) => seq![call],
        None => Seq::empty(),
    };
    registration + log_line
}

/// The states that are alive and the number of states ever created.
pub struct RegistryModel {
    pub live: Map<StateHandle, PluginState>,
    pub issued: nat,
}

impl RegistryModel {
    /// Every live handle was issued, and handles are issued from one upwards.
    pub open spec fn wf(self) -> bool {
        &&& self.issued <= usize::MAX
        &&& self.live.dom().finite()
        &&& self.live.len() <= self.issued
        &&& forall|h: StateHandle| #[trigger] self.live.contains_key(h) ==> self.was_issued(h)
    }

    /// `handle` has been handed out by a load.
    pub open spec fn was_issued(self, handle: StateHandle) -> bool {
        1 <= handle <= self.issued
    }

    /// There is a handle left for one more load.
    pub open spec fn has_room(self) -> bool {
        self.issued < usize::MAX
    }

    /// The handle that the next load hands out.
    pub open spec fn next_handle(self) -> StateHandle {
        (self.issued + 1) as usize
    }

    /// After a load through `host`.
    pub open spec fn load(self, host: ParallaxHostContextC) -> RegistryModel {
        RegistryModel {
            live: self.live.insert(self.next_handle(), PluginState { host }),
            issued: self.issued + 1,
        }
    }

    /// After an unload of `handle`.
    pub open spec fn unload(self, handle: StateHandle) -> RegistryModel {
        RegistryModel { live: self.live.remove(handle), issued: self.issued }
    }

    /// The call of a click on the menu entry of `handle`: the log line
    /// through the host of that state, none where no such state is alive.
    pub open spec fn click_call(self, handle: StateHandle) -> Option<HostCallModel> {
        if self.live.contains_key(handle) {
            log_call(Some(&self.live[handle].host), LOG_INFO, CLICKED_MESSAGE@)
        } else {
            None
        }
    }
}

/// Owner of the plugin states.
pub struct PluginRegistry {
    states: HashMap<StateHandle, PluginState>,
    issued: usize,
}

impl View for PluginRegistry {
    type V = RegistryModel;

    closed spec fn view(&self) -> RegistryModel {
        RegistryModel { live: self.states@, issued: self.issued as nat }
    }
}

/// Builds the menu entry of the state `handle`.
pub fn build_menu_item(handle: StateHandle) -> (item: ParallaxMenuItemC)
    ensures
        item@ == menu_item(handle),
{
    ParallaxMenuItemC {
        menu_path: CText::new(MENU_PATH),
        icon: None,
        shortcut: CText::new(MENU_SHORTCUT),
        callback: Some(PluginCallback::MenuClick),
        user_data: handle,
        separator: false,
    }
}

impl PluginRegistry {
    /// What every registry made by `new` and changed by the callbacks
    /// satisfies.
    pub open spec fn wf(&self) -> bool {
        self@.wf()
    }

    /// A registry without states.
    pub fn new() -> (r: Self)
        ensures
            r.wf(),
            r@.live == Map::<StateHandle, PluginState>::empty(),
            r@.issued == 0,
    {
        PluginRegistry { states: HashMap::new(), issued: 0 }
    }

    /// Whether a handle is left for one more load.
    pub fn has_room(&self) -> (b: bool)
        ensures
            b == self@.has_room(),
    {
        self.issued < usize::MAX
    }

    /// Number of states ever created.
    pub fn allocations(&self) -> (n: usize)
        ensures
            n == self@.issued,
    {
        self.issued
    }

    /// Number of states alive.
    pub fn live_count(&self) -> (n: usize)
        ensures
            n == self@.live.len(),
    {
        self.states.len()
    }

    /// Number of states destroyed.
    pub fn releases(&self) -> (n: usize)
        requires
            self.wf(),
        ensures
            n == self@.issued - self@.live.len(),
    {
        self.issued - self.states.len()
    }

    /// Whether `state` is the handle of a live state.
    pub fn is_live(&self, state: StateHandle) -> (b: bool)
        ensures
            b == self@.live.contains_key(state),
    {
        self.states.contains_key(&state)
    }

    /// The capability table that the state of `state` was loaded with.
    pub fn host_of(&self, state: StateHandle) -> (host: Option<ParallaxHostContextC>)
        ensures
            host == (if self@.live.contains_key(state) {
                Some(self@.live[state].host)
            } else {
                None
            }),
    {
        match self.states.get(&state) {
            Some(st) => Some(st.host),
            None => None,
        }
    }

    /// Creates a state for `host` and writes its handle to `out_state`.
    /// Returns `true` and the calls that the host is owed: the registration
    /// of the menu entry, then the log line. Without a host or without a
    /// place for the handle it does nothing and returns `false`.
    pub fn on_load(
        &mut self,
        host: Option<&ParallaxHostContextC>,
        out_state: Option<&mut StateHandle>,
    ) -> (r: (bool, Vec<HostCall>))
        requires
            old(self).wf(),
            old(self)@.has_room(),
        ensures
            final(self).wf(),
            r.0 <==> host is Some && out_state is Some,
            r.0 ==> final(self)@ == old(self)@.load(*host->0),
            r.0 ==> r.1.deep_view() == load_calls(*host->0, old(self)@.next_handle()),
            !r.0 ==> final(self)@ == old(self)@ && r.1@.len() == 0,
            out_state matches Some(slot) ==> *final(slot) == (if r.0 {
                old(self)@.next_handle()
            } else {
                *slot
            }),
            r.0 ==> old(self)@.next_handle() != NULL_STATE && !old(self)@.was_issued(
                old(self)@.next_handle(),
            ),
    {
        let mut calls: Vec<HostCall> = Vec::new();
        match (host, out_state) {
            (Some(h), Some(slot)) => {
                self.issued = self.issued + 1;
                let handle = self.issued;
                self.states.insert(handle, PluginState { host: *h });
                *slot = handle;
                if let Some(entry) = h.register_menu_item {
                    let item = build_menu_item(handle);
                    calls.push(
                        HostCall::RegisterMenuItem { entry, item, user_data: h.host_user_data },
                    );
                }
                if let Some(line) = host_log(Some(h), LOG_INFO, LOADED_MESSAGE) {
                    calls.push(line);
                }
                assert(calls.deep_view() =~= load_calls(*h, handle));
                (true, calls)
            },
            _ => (false, calls),
        }
    }

    /// Destroys the state of `state`. A handle without a live state, the null
    /// handle among them, changes nothing.
    pub fn on_unload(&mut self, state: StateHandle)
        requires
            old(self).wf(),
        ensures
            final(self).wf(),
            final(self)@ == old(self)@.unload(state),
            !old(self)@.live.contains_key(state) ==> final(self)@ == old(self)@,
            state == NULL_STATE ==> final(self)@ == old(self)@,
    {
        if state != NULL_STATE {
            self.states.remove(&state);
        }
        proof {
            assert(self@.live =~= old(self)@.live.remove(state));
            if !old(self)@.live.contains_key(state) {
                assert(self@.live =~= old(self)@.live);
            }
        }
    }

    /// Per-frame hook. `_delta_bits` is the time since the last frame, as the
    /// bit pattern of a 32-bit float. Creates nothing and destroys nothing.
    pub fn on_update(&mut self, _state: StateHandle, _delta_bits: u32)
        requires
            old(self).wf(),
        ensures
            final(self).wf(),
            final(self)@ == old(self)@,
    {
    }

    /// Handles a click on the menu entry of `state`: decides on the log
    /// line for the host of that state.
    pub fn menu_callback(&self, state: StateHandle) -> (call: Option<HostCall>)
        requires
            self.wf(),
        ensures
            call.deep_view() == self@.click_call(state),
    {
        if state == NULL_STATE {
            return None;
        }
        match self.states.get(&state) {
            Some(st) => host_log(Some(&st.host), LOG_INFO, CLICKED_MESSAGE),
            None => None,
        }
    }
}

} // verus!
