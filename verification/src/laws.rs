//! What holds of the lifecycle as a whole, proved over the registry's model.

use crate::abi::{HostCallModel, HostFn, ParallaxHostContextC, StateHandle, LOG_INFO, NULL_STATE};
use crate::ctext::{c_text, lemma_c_text_ascii};
use crate::plugin::{
    load_calls, menu_item, PluginState, RegistryModel, CLICKED_MESSAGE, LOADED_MESSAGE, MENU_PATH,
    MENU_SHORTCUT,
};
use vstd::prelude::*;

verus! {

/// One callback of the host into the plugin.
pub enum Event {
    /// A load with this capability table and a place for the handle.
    Load(ParallaxHostContextC),
    /// An unload of this handle.
    Unload(StateHandle),
    /// A frame update for this handle.
    Update(StateHandle),
    /// A click on the menu entry of this handle.
    Click(StateHandle),
}

impl RegistryModel {
    /// The host may make this callback now: a load needs a handle to hand
    /// out.
    pub open spec fn admits(self, event: Event) -> bool {
        event is Load ==> self.has_room()
    }

    /// The registry after one callback.
    pub open spec fn step(self, event: Event) -> RegistryModel {
        match event {
            Event::Load(host) => self.load(host),
            Event::Unload(handle) => self.unload(handle),
            Event::Update(_) => self,
            Event::Click(_) => self,
        }
    }

    /// The host may make these callbacks, one after the other.
    pub open spec fn admits_all(self, events: Seq<Event>) -> bool
        decreases events.len(),
    {
        events.len() > 0 ==> self.admits(events[0]) && self.step(events[0]).admits_all(
            events.drop_first(),
        )
    }

    /// The registry after these callbacks.
    pub open spec fn run(self, events: Seq<Event>) -> RegistryModel
        decreases events.len(),
    {
        if events.len() == 0 {
            self
        } else {
            self.step(events[0]).run(events.drop_first())
        }
    }
}

/// `needle` stands somewhere in `text`.
pub open spec fn contains_text(text: Seq<u8>, needle: Seq<u8>) -> bool {
    exists|i: int|
        0 <= i <= text.len() - needle.len() && #[trigger] text.subrange(
            i,
            i + needle.len() as int,
        ) == needle
}

/// Number of menu registrations among `calls`.
pub open spec fn registrations(calls: Seq<HostCallModel>) -> nat
    decreases calls.len(),
{
    if calls.len() == 0 {
        0
    } else {
        registrations(calls.drop_last()) + if calls.last() is RegisterMenuItem {
            1nat
        } else {
            0nat
        }
    }
}

/// Every callback keeps the registry well formed and takes no issued handle
/// back.
pub proof fn lemma_step_keeps_order(m: RegistryModel, event: Event)
    requires
        m.wf(),
        m.admits(event),
    ensures
        m.step(event).wf(),
        m.step(event).issued >= m.issued,
        event is Load ==> m.step(event).issued == m.issued + 1,
{
    if event is Load {
        assert(!m.live.contains_key(m.next_handle()));
    }
}

/// The same over any number of callbacks.
pub proof fn lemma_run_keeps_order(m: RegistryModel, events: Seq<Event>)
    requires
        m.wf(),
        m.admits_all(events),
    ensures
        m.run(events).wf(),
        m.run(events).issued >= m.issued,
    decreases events.len(),
{
    if events.len() > 0 {
        lemma_step_keeps_order(m, events[0]);
        lemma_run_keeps_order(m.step(events[0]), events.drop_first());
    }
}

/// The handle of a load is not null, was never handed out before, and is
/// never handed out again: whatever the host does after a load, loads and
/// unloads in any number and order, a later load gives another handle.
pub proof fn lemma_handles_never_repeat(
    m: RegistryModel,
    host: ParallaxHostContextC,
    events: Seq<Event>,
)
    requires
        m.wf(),
        m.has_room(),
        m.load(host).admits_all(events),
        m.load(host).run(events).has_room(),
    ensures
        m.next_handle() != NULL_STATE,
        !m.was_issued(m.next_handle()),
        !m.live.contains_key(m.next_handle()),
        m.load(host).run(events).next_handle() != m.next_handle(),
{
    lemma_step_keeps_order(m, Event::Load(host));
    lemma_run_keeps_order(m.load(host), events);
}

/// An unload of the null handle changes nothing.
pub proof fn lemma_unload_null_changes_nothing(m: RegistryModel)
    requires
        m.wf(),
    ensures
        m.unload(NULL_STATE) == m,
{
    assert(m.live.remove(NULL_STATE) =~= m.live);
}

/// The fixed texts of the plugin hold no zero byte, so each of them reaches
/// the host.
pub proof fn lemma_texts_convert()
    ensures
        c_text(MENU_PATH@) is Some,
        c_text(MENU_SHORTCUT@) is Some,
        c_text(LOADED_MESSAGE@) is Some,
        c_text(CLICKED_MESSAGE@) is Some,
{
    reveal_strlit("Plugins/Rust Example/Hello from Rust");
    reveal_strlit("Ctrl+Shift+R");
    reveal_strlit("Rust plugin loaded");
    reveal_strlit("Rust plugin menu item clicked");
    lemma_c_text_ascii(MENU_PATH@);
    lemma_c_text_ascii(MENU_SHORTCUT@);
    lemma_c_text_ascii(LOADED_MESSAGE@);
    lemma_c_text_ascii(CLICKED_MESSAGE@);
}

/// A load makes one menu registration where the host registers menu
/// entries, and none where it does not. The registration comes first and
/// carries the menu entry of the new state. The log line of the load follows
/// where the host logs, and there is no other call.
pub proof fn lemma_one_registration_per_load(host: ParallaxHostContextC, handle: StateHandle)
    ensures
        registrations(load_calls(host, handle)) == (if host.register_menu_item is Some {
            1nat
        } else {
            0nat
        }),
        load_calls(host, handle).len() == registrations(load_calls(host, handle)) + (if host.log
            is Some {
            1nat
        } else {
            0nat
        }),
        host.register_menu_item matches Some(entry) ==> load_calls(host, handle).first()
            == (HostCallModel::RegisterMenuItem {
            entry,
            item: menu_item(handle),
            user_data: host.host_user_data,
        }),
        host.log matches Some(entry) ==> load_calls(host, handle).last() == (HostCallModel::Log {
            entry,
            level: LOG_INFO,
            message: c_text(LOADED_MESSAGE@)->0,
            user_data: host.host_user_data,
        }),
{
    lemma_texts_convert();
    reveal_with_fuel(registrations, 3);
    let calls = load_calls(host, handle);
    if calls.len() == 2 {
        assert(calls.drop_last().len() == 1);
        assert(calls.drop_last().drop_last().len() == 0);
    } else if calls.len() == 1 {
        assert(calls.drop_last().len() == 0);
    }
}

/// A state stays as it was loaded until it is unloaded, whatever else the
/// host does.
pub proof fn lemma_state_lives_until_unload(
    m: RegistryModel,
    handle: StateHandle,
    events: Seq<Event>,
)
    requires
        m.wf(),
        m.live.contains_key(handle),
        m.admits_all(events),
        !events.contains(Event::Unload(handle)),
    ensures
        m.run(events).live.contains_key(handle),
        m.run(events).live[handle] == m.live[handle],
    decreases events.len(),
{
    if events.len() > 0 {
        let first = events[0];
        let rest = events.drop_first();
        assert(events.contains(first));
        lemma_step_keeps_order(m, first);
        assert forall|e: Event| rest.contains(e) implies events.contains(e) by {
            let i = choose|i: int| 0 <= i < rest.len() && rest[i] == e;
            assert(events[i + 1] == e);
        }
        lemma_state_lives_until_unload(m.step(first), handle, rest);
    }
}

/// A click on the menu entry of a loaded state, with the handle that the
/// load gave, makes one log call where the host has a log service: severity
/// info, the click message, the host's own data. This holds as long as the
/// state has not been unloaded, whatever else the host has done since. A
/// click with the null handle makes no call.
pub proof fn lemma_click_logs_once(
    m: RegistryModel,
    host: ParallaxHostContextC,
    entry: HostFn,
    events: Seq<Event>,
)
    requires
        m.wf(),
        m.has_room(),
        host.log == Some(entry),
        m.load(host).admits_all(events),
        !events.contains(Event::Unload(m.next_handle())),
    ensures
        c_text(CLICKED_MESSAGE@) is Some,
        m.load(host).run(events).click_call(m.next_handle()) == Some(
            HostCallModel::Log {
                entry,
                level: LOG_INFO,
                message: c_text(CLICKED_MESSAGE@)->0,
                user_data: host.host_user_data,
            },
        ),
        LOG_INFO == 0,
        contains_text(c_text(CLICKED_MESSAGE@)->0, c_text("menu item clicked"@)->0),
        m.load(host).run(events).click_call(NULL_STATE) is None,
{
    let handle = m.next_handle();
    lemma_step_keeps_order(m, Event::Load(host));
    lemma_state_lives_until_unload(m.load(host), handle, events);
    lemma_run_keeps_order(m.load(host), events);
    reveal_strlit("Rust plugin menu item clicked");
    reveal_strlit("menu item clicked");
    lemma_c_text_ascii(CLICKED_MESSAGE@);
    lemma_c_text_ascii("menu item clicked"@);
    let message = c_text(CLICKED_MESSAGE@)->0;
    let needle = c_text("menu item clicked"@)->0;
    assert(message.subrange(12, 12 + needle.len() as int) =~= needle);
}

/// The registry after loading and at once unloading, once for each host of
/// `hosts`.
pub open spec fn round_trips(m: RegistryModel, hosts: Seq<ParallaxHostContextC>) -> RegistryModel
    decreases hosts.len(),
{
    if hosts.len() == 0 {
        m
    } else {
        round_trips(m.load(hosts[0]).unload(m.next_handle()), hosts.drop_first())
    }
}

/// Load, then unload: the state is gone, the live states are those from
/// before, and one more state has been created. Unloading once more changes
/// nothing.
pub proof fn lemma_round_trip(m: RegistryModel, host: ParallaxHostContextC)
    requires
        m.wf(),
        m.has_room(),
    ensures
        m.load(host).live.contains_key(m.next_handle()),
        m.load(host).live.len() == m.live.len() + 1,
        m.load(host).unload(m.next_handle()).wf(),
        m.load(host).unload(m.next_handle()).live == m.live,
        m.load(host).unload(m.next_handle()).issued == m.issued + 1,
        m.load(host).unload(m.next_handle()).unload(m.next_handle()) == m.load(host).unload(
            m.next_handle(),
        ),
{
    let handle = m.next_handle();
    assert(!m.live.contains_key(handle));
    assert(m.live.insert(handle, PluginState { host }).remove(handle) =~= m.live);
    assert(m.live.remove(handle) =~= m.live);
}

/// Any number of such round trips leaves no state behind: the live states
/// are those from before, and each trip has created one state.
pub proof fn lemma_round_trips_leave_nothing(m: RegistryModel, hosts: Seq<ParallaxHostContextC>)
    requires
        m.wf(),
        m.issued + hosts.len() <= usize::MAX,
    ensures
        round_trips(m, hosts).wf(),
        round_trips(m, hosts).live == m.live,
        round_trips(m, hosts).issued == m.issued + hosts.len(),
    decreases hosts.len(),
{
    if hosts.len() > 0 {
        lemma_round_trip(m, hosts[0]);
        lemma_round_trips_leave_nothing(
            m.load(hosts[0]).unload(m.next_handle()),
            hosts.drop_first(),
        );
    }
}

} // verus!
