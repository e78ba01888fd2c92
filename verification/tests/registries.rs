use audio_plugin_dnd::outbound::{
    clear_drag_active, has_active_outbound_drag, is_drag_active, ActiveOutboundDrag, OutboundDrags,
};
use audio_plugin_dnd::plugin_windows::{
    is_registered_plugin_window, PluginWindowGuard, PluginWindows,
};

#[test]
fn guard_registers_and_unregisters_on_drop() {
    let mut registry = PluginWindows::new();
    let test_id = 0xdead_beef;
    {
        let guard = PluginWindowGuard::register(&mut registry, test_id);
        assert!(is_registered_plugin_window(&registry, test_id));
        guard.release(&mut registry);
    }
    assert!(!is_registered_plugin_window(&registry, test_id));
}

#[test]
fn zero_window_id_is_ignored() {
    let mut registry = PluginWindows::new();
    let guard = PluginWindowGuard::register(&mut registry, 0);
    assert!(!is_registered_plugin_window(&registry, 0));
    guard.release(&mut registry);
    assert!(!is_registered_plugin_window(&registry, 0));
}

#[test]
fn drags_are_active_until_released_or_cleared() {
    let mut drags = OutboundDrags::new();
    assert!(!has_active_outbound_drag(&drags));
    let one = ActiveOutboundDrag::register(&mut drags, 1);
    let two = ActiveOutboundDrag::register(&mut drags, 2);
    assert!(has_active_outbound_drag(&drags));
    assert!(is_drag_active(&drags, 1));
    one.release(&mut drags);
    assert!(!is_drag_active(&drags, 1));
    assert!(is_drag_active(&drags, 2));
    clear_drag_active(&mut drags, 2);
    assert!(!has_active_outbound_drag(&drags));
    two.release(&mut drags);
    assert!(!has_active_outbound_drag(&drags));
}
