//! When an XDND drag is handed over to the native Wayland route.
//!
//! The pointer is sampled while the button is held. Over a compositor bridge,
//! and only after it has left the editor it came from, a streak of samples grows;
//! a streak that is long enough hands the drag over.

use vstd::prelude::*;

verus! {

/// How many samples over a bridge hand a drag over.
pub const BRIDGE_HANDOFF_STREAK: u32 = 2;

/// What one pointer sample says about a handover.
#[derive(Clone, Copy, Debug, PartialEq, Eq, Structural)]
pub enum BridgeHandoffDecision {
    Handoff,
    SuppressedStillOverOrigin,
    SuppressedNotLeftOrigin,
    SuppressedRealXdndTarget,
    SuppressedStreakInsufficient,
    SuppressedNotOverBridge,
    SuppressedRouteDisabled,
    SuppressedButtonReleased,
}

impl BridgeHandoffDecision {
    /// The reason worth a diagnostic, if there is one.
    pub open spec fn reason(self) -> Option<Seq<char>> {
        match self {
            BridgeHandoffDecision::SuppressedStillOverOrigin => Some(
                "handoff suppressed: still over origin"@,
            ),
            BridgeHandoffDecision::SuppressedNotLeftOrigin => Some(
                "handoff suppressed: pointer has not left origin"@,
            ),
            BridgeHandoffDecision::SuppressedRealXdndTarget => Some(
                "handoff suppressed: real X11 Xdnd target"@,
            ),
            _ => None,
        }
    }

    /// Diagnostic for a suppressed handover.
    pub fn suppression_log(self) -> (log: Option<&'static str>)
        ensures
            log is Some == self.reason() is Some,
            log matches Some(text) ==> Some(text@) == self.reason(),
    {
        match self {
            BridgeHandoffDecision::SuppressedStillOverOrigin => Some(
                "handoff suppressed: still over origin",
            ),
            BridgeHandoffDecision::SuppressedNotLeftOrigin => Some(
                "handoff suppressed: pointer has not left origin",
            ),
            BridgeHandoffDecision::SuppressedRealXdndTarget => Some(
                "handoff suppressed: real X11 Xdnd target",
            ),
            BridgeHandoffDecision::SuppressedStreakInsufficient
            | BridgeHandoffDecision::SuppressedNotOverBridge
            | BridgeHandoffDecision::SuppressedRouteDisabled
            | BridgeHandoffDecision::SuppressedButtonReleased
            | BridgeHandoffDecision::Handoff => None,
        }
    }
}

/// Whether a sample counts towards a handover.
pub open spec fn sample_counts(
    route_enabled: bool,
    over_bridge: bool,
    button1_held: bool,
    over_origin: bool,
    is_real_target: bool,
    saw_pointer_leave_origin: bool,
) -> bool {
    &&& route_enabled
    &&& over_bridge
    &&& button1_held
    &&& !over_origin
    &&& !is_real_target
    &&& saw_pointer_leave_origin
}

/// The streak after a sample.
pub open spec fn streak_after(streak: u32, counts: bool) -> u32 {
    if !counts {
        0
    } else if streak == u32::MAX {
        u32::MAX
    } else {
        (streak + 1) as u32
    }
}

/// The streak of bridge samples after one more sample.
#[must_use]
pub fn bridge_hover_streak_after_sample(
    streak: u32,
    route_enabled: bool,
    over_bridge: bool,
    button1_held: bool,
    over_origin: bool,
    is_real_target: bool,
    saw_pointer_leave_origin: bool,
) -> (next: u32)
    ensures
        next == streak_after(
            streak,
            sample_counts(
                route_enabled,
                over_bridge,
                button1_held,
                over_origin,
                is_real_target,
                saw_pointer_leave_origin,
            ),
        ),
{
    if route_enabled && over_bridge && button1_held && !over_origin && !is_real_target
        && saw_pointer_leave_origin {
        streak.saturating_add(1)
    } else {
        0
    }
}

/// The decision after a sample: the first obstacle in this order, else the handover.
pub open spec fn handoff_decision(
    streak: u32,
    route_enabled: bool,
    over_bridge: bool,
    button1_held: bool,
    over_origin: bool,
    saw_pointer_leave_origin: bool,
    is_real_target: bool,
) -> BridgeHandoffDecision {
    if !route_enabled {
        BridgeHandoffDecision::SuppressedRouteDisabled
    } else if !button1_held {
        BridgeHandoffDecision::SuppressedButtonReleased
    } else if over_origin {
        BridgeHandoffDecision::SuppressedStillOverOrigin
    } else if !saw_pointer_leave_origin {
        BridgeHandoffDecision::SuppressedNotLeftOrigin
    } else if is_real_target {
        BridgeHandoffDecision::SuppressedRealXdndTarget
    } else if !over_bridge {
        BridgeHandoffDecision::SuppressedNotOverBridge
    } else if streak < BRIDGE_HANDOFF_STREAK {
        BridgeHandoffDecision::SuppressedStreakInsufficient
    } else {
        BridgeHandoffDecision::Handoff
    }
}

/// Whether a drag is handed over after a sample, and if not, why.
#[must_use]
pub fn evaluate_bridge_handoff(
    streak: u32,
    route_enabled: bool,
    over_bridge: bool,
    button1_held: bool,
    over_origin: bool,
    saw_pointer_leave_origin: bool,
    is_real_target: bool,
) -> (decision: BridgeHandoffDecision)
    ensures
        decision == handoff_decision(
            streak,
            route_enabled,
            over_bridge,
            button1_held,
            over_origin,
            saw_pointer_leave_origin,
            is_real_target,
        ),
{
    if !route_enabled {
        return BridgeHandoffDecision::SuppressedRouteDisabled;
    }
    if !button1_held {
        return BridgeHandoffDecision::SuppressedButtonReleased;
    }
    if over_origin {
        return BridgeHandoffDecision::SuppressedStillOverOrigin;
    }
    if !saw_pointer_leave_origin {
        return BridgeHandoffDecision::SuppressedNotLeftOrigin;
    }
    if is_real_target {
        return BridgeHandoffDecision::SuppressedRealXdndTarget;
    }
    if !over_bridge {
        return BridgeHandoffDecision::SuppressedNotOverBridge;
    }
    if streak >= BRIDGE_HANDOFF_STREAK {
        BridgeHandoffDecision::Handoff
    } else {
        BridgeHandoffDecision::SuppressedStreakInsufficient
    }
}

/// A handover happens exactly when the sample counts and the streak is long
/// enough: never over the origin, before leaving it, over a real X11 target, off
/// the bridge, with the button up or with the route disabled.
pub proof fn handoff_needs_a_counting_sample(
    streak: u32,
    route_enabled: bool,
    over_bridge: bool,
    button1_held: bool,
    over_origin: bool,
    saw_pointer_leave_origin: bool,
    is_real_target: bool,
)
    ensures
        handoff_decision(
            streak,
            route_enabled,
            over_bridge,
            button1_held,
            over_origin,
            saw_pointer_leave_origin,
            is_real_target,
        ) is Handoff <==> sample_counts(
            route_enabled,
            over_bridge,
            button1_held,
            over_origin,
            is_real_target,
            saw_pointer_leave_origin,
        ) && streak >= BRIDGE_HANDOFF_STREAK,
{
}

/// The streak after a run of samples.
pub open spec fn streak_of(samples: Seq<bool>) -> u32
    decreases samples.len(),
{
    if samples.len() == 0 {
        0
    } else {
        streak_after(streak_of(samples.drop_last()), samples.last())
    }
}

/// A streak long enough for a handover means that the last samples all counted:
/// one sample in between that does not count starts the streak anew.
pub proof fn handoff_streak_means_consecutive_samples(samples: Seq<bool>)
    ensures
        streak_of(samples) >= BRIDGE_HANDOFF_STREAK <==> samples.len() >= 2
            && samples[samples.len() - 1] && samples[samples.len() - 2],
{
    reveal_with_fuel(streak_of, 3);
    if samples.len() >= 2 {
        assert(samples.drop_last().last() == samples[samples.len() - 2]);
    }
}

/// Each reason against a handover is named exactly when it holds and none that comes before
/// it does: the route, the button, the editor, the way out of the editor, a named window,
/// the bridge, and at last the number of samples, of which two are enough.
pub proof fn first_obstacle_is_named(
    streak: u32,
    route_enabled: bool,
    over_bridge: bool,
    button1_held: bool,
    over_origin: bool,
    left: bool,
    is_real_target: bool,
)
    ensures
        ({
            let decision = handoff_decision(
                streak,
                route_enabled,
                over_bridge,
                button1_held,
                over_origin,
                left,
                is_real_target,
            );
            let ready = route_enabled && button1_held && !over_origin && left && !is_real_target
                && over_bridge;
            &&& decision is Handoff <==> ready && streak >= 2
            &&& decision is SuppressedStreakInsufficient <==> ready && streak < 2
            &&& decision is SuppressedRouteDisabled <==> !route_enabled
            &&& decision is SuppressedButtonReleased <==> route_enabled && !button1_held
            &&& decision is SuppressedStillOverOrigin <==> route_enabled && button1_held
                && over_origin
            &&& decision is SuppressedNotLeftOrigin <==> route_enabled && button1_held
                && !over_origin && !left
            &&& decision is SuppressedRealXdndTarget <==> route_enabled && button1_held
                && !over_origin && left && is_real_target
            &&& decision is SuppressedNotOverBridge <==> route_enabled && button1_held
                && !over_origin && left && !is_real_target && !over_bridge
        }),
{
}

/// A sample counts exactly when the route is enabled and the button is held, off the editor
/// after leaving it, over a bridge and not over a named window.
pub proof fn only_samples_over_a_bridge_count(
    route_enabled: bool,
    over_bridge: bool,
    button1_held: bool,
    over_origin: bool,
    is_real_target: bool,
    left: bool,
    streak: u32,
)
    requires
        streak < u32::MAX,
    ensures
        streak_after(
            streak,
            sample_counts(
                route_enabled,
                over_bridge,
                button1_held,
                over_origin,
                is_real_target,
                left,
            ),
        ) == (if route_enabled && button1_held && over_bridge && left && !over_origin
            && !is_real_target {
            streak + 1
        } else {
            0
        }),
{
}

/// The streak is the number of samples at the end of a run that all counted.
pub proof fn streak_is_the_length_of_the_last_run(samples: Seq<bool>, n: int)
    requires
        0 <= n <= samples.len(),
        n <= u32::MAX,
        forall|i: int| samples.len() - n <= i < samples.len() ==> #[trigger] samples[i],
        n < samples.len() ==> !samples[samples.len() - n - 1],
    ensures
        streak_of(samples) == n,
    decreases n,
{
    if n > 0 {
        let rest = samples.drop_last();
        assert(samples[samples.len() - 1]);
        assert forall|i: int| rest.len() - (n - 1) <= i < rest.len() implies #[trigger] rest[i] by {
            assert(samples[i]);
        }
        streak_is_the_length_of_the_last_run(rest, n - 1);
    }
}

/// A diagnostic is due exactly for the editor, the way out of it, and a named window.
pub proof fn only_three_reasons_are_reported(decision: BridgeHandoffDecision)
    ensures
        decision.reason() is Some <==> decision is SuppressedStillOverOrigin
            || decision is SuppressedNotLeftOrigin || decision is SuppressedRealXdndTarget,
{
}

} // verus!
