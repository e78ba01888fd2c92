use audio_plugin_dnd::handoff::{
    bridge_hover_streak_after_sample, evaluate_bridge_handoff, BridgeHandoffDecision,
    BRIDGE_HANDOFF_STREAK,
};
use audio_plugin_dnd::target::is_drag_origin_window;

#[test]
fn bridge_streak_increments_after_leaving_origin() {
    let first = bridge_hover_streak_after_sample(0, true, true, true, false, false, true);
    assert_eq!(first, 1);
    let second = bridge_hover_streak_after_sample(first, true, true, true, false, false, true);
    assert_eq!(second, BRIDGE_HANDOFF_STREAK);
    assert_eq!(
        evaluate_bridge_handoff(second, true, true, true, false, true, false),
        BridgeHandoffDecision::Handoff
    );
}

#[test]
fn bridge_streak_resets_off_bridge_or_release() {
    assert_eq!(
        bridge_hover_streak_after_sample(1, true, false, true, false, false, true),
        0
    );
    assert_eq!(
        bridge_hover_streak_after_sample(1, true, true, false, false, false, true),
        0
    );
    assert_eq!(
        bridge_hover_streak_after_sample(1, false, true, true, false, false, true),
        0
    );
    assert_eq!(
        evaluate_bridge_handoff(1, true, true, true, false, true, false),
        BridgeHandoffDecision::SuppressedStreakInsufficient
    );
}

#[test]
fn bridge_handoff_suppressed_over_origin() {
    assert_eq!(
        bridge_hover_streak_after_sample(0, true, true, true, true, false, false),
        0
    );
    assert_eq!(
        evaluate_bridge_handoff(BRIDGE_HANDOFF_STREAK, true, true, true, true, false, false),
        BridgeHandoffDecision::SuppressedStillOverOrigin
    );
}

#[test]
fn bridge_handoff_suppressed_before_leaving_origin() {
    assert_eq!(
        bridge_hover_streak_after_sample(0, true, true, true, false, false, false),
        0
    );
    assert_eq!(
        evaluate_bridge_handoff(BRIDGE_HANDOFF_STREAK, true, true, true, false, false, false),
        BridgeHandoffDecision::SuppressedNotLeftOrigin
    );
}

#[test]
fn bridge_handoff_suppressed_on_real_x11_target() {
    assert_eq!(
        bridge_hover_streak_after_sample(1, true, false, true, false, true, true),
        0
    );
    assert_eq!(
        evaluate_bridge_handoff(BRIDGE_HANDOFF_STREAK, true, false, true, false, true, true),
        BridgeHandoffDecision::SuppressedRealXdndTarget
    );
}

#[test]
fn sibling_plugin_window_is_not_the_origin_window() {
    assert!(is_drag_origin_window(Some(0x100), 0x100));
    assert!(!is_drag_origin_window(Some(0x100), 0x200));
    assert!(!is_drag_origin_window(None, 0x200));
}

#[test]
fn streak_saturates() {
    assert_eq!(
        bridge_hover_streak_after_sample(u32::MAX, true, true, true, false, false, true),
        u32::MAX
    );
}

#[test]
fn every_obstacle_has_its_decision() {
    assert_eq!(
        evaluate_bridge_handoff(2, false, true, true, false, true, false),
        BridgeHandoffDecision::SuppressedRouteDisabled
    );
    assert_eq!(
        evaluate_bridge_handoff(2, true, true, false, false, true, false),
        BridgeHandoffDecision::SuppressedButtonReleased
    );
    assert_eq!(
        evaluate_bridge_handoff(2, true, false, true, false, true, false),
        BridgeHandoffDecision::SuppressedNotOverBridge
    );
    assert_eq!(
        BridgeHandoffDecision::SuppressedStillOverOrigin.suppression_log(),
        Some("handoff suppressed: still over origin")
    );
    assert_eq!(
        BridgeHandoffDecision::SuppressedNotLeftOrigin.suppression_log(),
        Some("handoff suppressed: pointer has not left origin")
    );
    assert_eq!(
        BridgeHandoffDecision::SuppressedRealXdndTarget.suppression_log(),
        Some("handoff suppressed: real X11 Xdnd target")
    );
    assert_eq!(BridgeHandoffDecision::Handoff.suppression_log(), None);
    assert_eq!(
        BridgeHandoffDecision::SuppressedNotOverBridge.suppression_log(),
        None
    );
}
