use parallax_plugin::{
    build_menu_item, CText, HostCall, HostFn, ParallaxHostContextC, ParallaxMenuItemC,
    PluginCallback, PluginRegistry, StateHandle, LOG_INFO, NULL_STATE,
};

const REGISTER: HostFn = HostFn { addr: 0x1000 };
const LOG: HostFn = HostFn { addr: 0x2000 };
const USER_DATA: usize = 0xfeed;

fn full_host() -> ParallaxHostContextC {
    ParallaxHostContextC {
        register_menu_item: Some(REGISTER),
        log: Some(LOG),
        host_user_data: USER_DATA,
    }
}

fn load(registry: &mut PluginRegistry, host: &ParallaxHostContextC) -> (StateHandle, Vec<HostCall>) {
    assert!(registry.has_room());
    let mut slot = NULL_STATE;
    let (ok, calls) = registry.on_load(Some(host), Some(&mut slot));
    assert!(ok);
    (slot, calls)
}

fn expected_item(handle: StateHandle) -> ParallaxMenuItemC {
    ParallaxMenuItemC {
        menu_path: Some(CText::new("Plugins/Rust Example/Hello from Rust").unwrap()),
        icon: None,
        shortcut: Some(CText::new("Ctrl+Shift+R").unwrap()),
        callback: Some(PluginCallback::MenuClick),
        user_data: handle,
        separator: false,
    }
}

fn expected_log(text: &str) -> HostCall {
    HostCall::Log {
        entry: LOG,
        level: 0,
        message: CText::new(text).unwrap(),
        user_data: USER_DATA,
    }
}

fn contains(text: &[u8], needle: &[u8]) -> bool {
    text.windows(needle.len()).any(|w| w == needle)
}

#[test]
fn new_registry_is_empty() {
    let registry = PluginRegistry::new();
    assert_eq!(registry.allocations(), 0);
    assert_eq!(registry.live_count(), 0);
    assert_eq!(registry.releases(), 0);
    assert!(registry.has_room());
    assert!(!registry.is_live(NULL_STATE));
    assert!(!registry.is_live(1));
}

#[test]
fn load_without_host_fails_and_creates_nothing() {
    let mut registry = PluginRegistry::new();
    let mut slot: StateHandle = 77;
    let (ok, calls) = registry.on_load(None, Some(&mut slot));
    assert!(!ok);
    assert!(calls.is_empty());
    assert_eq!(slot, 77);
    assert_eq!(registry.allocations(), 0);
    assert_eq!(registry.live_count(), 0);
}

#[test]
fn load_without_output_slot_fails_and_creates_nothing() {
    let mut registry = PluginRegistry::new();
    let host = full_host();
    let (ok, calls) = registry.on_load(Some(&host), None);
    assert!(!ok);
    assert!(calls.is_empty());
    assert_eq!(registry.allocations(), 0);
    assert_eq!(registry.live_count(), 0);
}

#[test]
fn load_without_host_and_slot_fails_and_creates_nothing() {
    let mut registry = PluginRegistry::new();
    let (ok, calls) = registry.on_load(None, None);
    assert!(!ok);
    assert!(calls.is_empty());
    assert_eq!(registry.allocations(), 0);
}

#[test]
fn failed_load_leaves_live_states_alone() {
    let mut registry = PluginRegistry::new();
    let host = full_host();
    let (first, _) = load(&mut registry, &host);
    let mut slot = NULL_STATE;
    let (ok, calls) = registry.on_load(None, Some(&mut slot));
    assert!(!ok);
    assert!(calls.is_empty());
    assert_eq!(slot, NULL_STATE);
    assert_eq!(registry.allocations(), 1);
    assert_eq!(registry.live_count(), 1);
    assert!(registry.is_live(first));
}

#[test]
fn load_registers_the_menu_entry_then_logs() {
    let mut registry = PluginRegistry::new();
    let host = full_host();
    let (handle, calls) = load(&mut registry, &host);
    assert_eq!(handle, 1);
    assert_ne!(handle, NULL_STATE);
    assert_eq!(
        calls,
        vec![
            HostCall::RegisterMenuItem {
                entry: REGISTER,
                item: expected_item(handle),
                user_data: USER_DATA,
            },
            expected_log("Rust plugin loaded"),
        ]
    );
    assert_eq!(registry.allocations(), 1);
    assert_eq!(registry.live_count(), 1);
    assert!(registry.is_live(handle));
    assert_eq!(registry.host_of(handle), Some(host));
}

#[test]
fn load_makes_one_registration_when_the_host_registers() {
    let mut registry = PluginRegistry::new();
    let host = full_host();
    let (_, calls) = load(&mut registry, &host);
    let registrations = calls
        .iter()
        .filter(|c| matches!(c, HostCall::RegisterMenuItem { .. }))
        .count();
    assert_eq!(registrations, 1);
}

#[test]
fn load_makes_no_registration_when_the_host_does_not_register() {
    let mut registry = PluginRegistry::new();
    let host = ParallaxHostContextC { register_menu_item: None, log: Some(LOG), host_user_data: USER_DATA };
    let (handle, calls) = load(&mut registry, &host);
    assert_ne!(handle, NULL_STATE);
    assert_eq!(calls, vec![expected_log("Rust plugin loaded")]);
}

#[test]
fn load_does_not_log_when_the_host_does_not_log() {
    let mut registry = PluginRegistry::new();
    let host = ParallaxHostContextC { register_menu_item: Some(REGISTER), log: None, host_user_data: 5 };
    let (handle, calls) = load(&mut registry, &host);
    assert_eq!(
        calls,
        vec![HostCall::RegisterMenuItem { entry: REGISTER, item: expected_item(handle), user_data: 5 }]
    );
}

#[test]
fn load_succeeds_on_a_host_without_services() {
    let mut registry = PluginRegistry::new();
    let host = ParallaxHostContextC { register_menu_item: None, log: None, host_user_data: 0 };
    let (handle, calls) = load(&mut registry, &host);
    assert_ne!(handle, NULL_STATE);
    assert!(calls.is_empty());
    assert!(registry.is_live(handle));
}

#[test]
fn menu_entry_has_the_fixed_path_and_shortcut() {
    let item = build_menu_item(42);
    assert_eq!(item, expected_item(42));
    assert_eq!(
        item.menu_path.as_ref().unwrap().as_bytes_with_nul(),
        &b"Plugins/Rust Example/Hello from Rust\0"[..]
    );
    assert_eq!(item.shortcut.as_ref().unwrap().as_bytes_with_nul(), &b"Ctrl+Shift+R\0"[..]);
    assert_eq!(item.icon, None);
    assert_eq!(item.callback, Some(PluginCallback::MenuClick));
    assert_eq!(item.user_data, 42);
    assert!(!item.separator);
}

#[test]
fn handles_differ_across_load_unload_cycles() {
    let mut registry = PluginRegistry::new();
    let host = full_host();
    let mut seen: Vec<StateHandle> = Vec::new();
    for _ in 0..50 {
        let (handle, _) = load(&mut registry, &host);
        assert_ne!(handle, NULL_STATE);
        assert!(!seen.contains(&handle));
        seen.push(handle);
        registry.on_unload(handle);
    }
    assert_eq!(seen.len(), 50);
}

#[test]
fn handles_differ_among_live_states() {
    let mut registry = PluginRegistry::new();
    let host = full_host();
    let (a, _) = load(&mut registry, &host);
    let (b, _) = load(&mut registry, &host);
    registry.on_unload(a);
    let (c, _) = load(&mut registry, &host);
    assert_eq!((a, b, c), (1, 2, 3));
    assert!(!registry.is_live(a));
    assert!(registry.is_live(b));
    assert!(registry.is_live(c));
}

#[test]
fn unload_of_the_null_handle_changes_nothing() {
    let mut registry = PluginRegistry::new();
    registry.on_unload(NULL_STATE);
    assert_eq!(registry.allocations(), 0);
    assert_eq!(registry.live_count(), 0);

    let host = full_host();
    let (handle, _) = load(&mut registry, &host);
    registry.on_unload(NULL_STATE);
    assert_eq!(registry.allocations(), 1);
    assert_eq!(registry.live_count(), 1);
    assert!(registry.is_live(handle));
}

#[test]
fn unload_destroys_the_state() {
    let mut registry = PluginRegistry::new();
    let host = full_host();
    let (handle, _) = load(&mut registry, &host);
    registry.on_unload(handle);
    assert!(!registry.is_live(handle));
    assert_eq!(registry.host_of(handle), None);
    assert_eq!(registry.live_count(), 0);
    assert_eq!(registry.allocations(), 1);
    assert_eq!(registry.releases(), 1);
}

#[test]
fn second_unload_of_a_handle_changes_nothing() {
    let mut registry = PluginRegistry::new();
    let host = full_host();
    let (a, _) = load(&mut registry, &host);
    let (b, _) = load(&mut registry, &host);
    registry.on_unload(a);
    registry.on_unload(a);
    assert_eq!(registry.live_count(), 1);
    assert_eq!(registry.releases(), 1);
    assert!(registry.is_live(b));
}

#[test]
fn unload_of_an_unknown_handle_changes_nothing() {
    let mut registry = PluginRegistry::new();
    let host = full_host();
    let (handle, _) = load(&mut registry, &host);
    registry.on_unload(handle + 10);
    assert_eq!(registry.live_count(), 1);
    assert!(registry.is_live(handle));
}

#[test]
fn round_trips_leave_no_state_behind() {
    let mut registry = PluginRegistry::new();
    let host = full_host();
    let (kept, _) = load(&mut registry, &host);
    for n in 0..200usize {
        let (handle, _) = load(&mut registry, &host);
        assert_eq!(registry.live_count(), 2);
        registry.on_unload(handle);
        assert_eq!(registry.live_count(), 1);
        assert_eq!(registry.allocations(), n + 2);
        assert_eq!(registry.releases(), n + 1);
    }
    assert!(registry.is_live(kept));
    assert_eq!(registry.allocations(), 201);
    assert_eq!(registry.releases(), 200);
}

#[test]
fn update_changes_nothing() {
    let mut registry = PluginRegistry::new();
    let host = full_host();
    let (handle, _) = load(&mut registry, &host);
    registry.on_update(handle, 0.016f32.to_bits());
    registry.on_update(NULL_STATE, 0.016f32.to_bits());
    registry.on_update(handle + 1, 0);
    assert_eq!(registry.allocations(), 1);
    assert_eq!(registry.live_count(), 1);
    assert!(registry.is_live(handle));
    assert_eq!(registry.host_of(handle), Some(host));
}

#[test]
fn click_logs_once_with_severity_info() {
    let mut registry = PluginRegistry::new();
    let host = full_host();
    let (handle, _) = load(&mut registry, &host);
    let call = registry.menu_callback(handle);
    assert_eq!(call, Some(expected_log("Rust plugin menu item clicked")));
    match call {
        Some(HostCall::Log { entry, level, message, user_data }) => {
            assert_eq!(entry, LOG);
            assert_eq!(level, LOG_INFO);
            assert_eq!(level, 0);
            assert_eq!(user_data, USER_DATA);
            assert!(contains(message.as_bytes_with_nul(), b"menu item clicked"));
        }
        other => panic!("expected a log call, got {:?}", other),
    }
}

#[test]
fn click_logs_through_the_host_of_its_own_state() {
    let mut registry = PluginRegistry::new();
    let first = full_host();
    let second = ParallaxHostContextC {
        register_menu_item: None,
        log: Some(HostFn { addr: 0x3000 }),
        host_user_data: 9,
    };
    let (a, _) = load(&mut registry, &first);
    let (b, _) = load(&mut registry, &second);
    assert_eq!(registry.menu_callback(a), Some(expected_log("Rust plugin menu item clicked")));
    assert_eq!(
        registry.menu_callback(b),
        Some(HostCall::Log {
            entry: HostFn { addr: 0x3000 },
            level: 0,
            message: CText::new("Rust plugin menu item clicked").unwrap(),
            user_data: 9,
        })
    );
}

#[test]
fn click_with_the_null_handle_does_nothing() {
    let mut registry = PluginRegistry::new();
    assert_eq!(registry.menu_callback(NULL_STATE), None);
    let host = full_host();
    let _ = load(&mut registry, &host);
    assert_eq!(registry.menu_callback(NULL_STATE), None);
}

#[test]
fn click_after_unload_does_nothing() {
    let mut registry = PluginRegistry::new();
    let host = full_host();
    let (handle, _) = load(&mut registry, &host);
    registry.on_unload(handle);
    assert_eq!(registry.menu_callback(handle), None);
}

#[test]
fn click_does_nothing_when_the_host_does_not_log() {
    let mut registry = PluginRegistry::new();
    let host = ParallaxHostContextC { register_menu_item: Some(REGISTER), log: None, host_user_data: 1 };
    let (handle, _) = load(&mut registry, &host);
    assert_eq!(registry.menu_callback(handle), None);
}

#[test]
fn click_still_logs_after_other_callbacks() {
    let mut registry = PluginRegistry::new();
    let host = full_host();
    let (handle, _) = load(&mut registry, &host);
    let (other, _) = load(&mut registry, &host);
    registry.on_update(handle, 0);
    registry.on_unload(other);
    let _ = registry.menu_callback(other);
    assert_eq!(
        registry.menu_callback(handle),
        Some(expected_log("Rust plugin menu item clicked"))
    );
}
