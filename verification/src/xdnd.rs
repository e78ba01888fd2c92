//! The state of one outbound XDND drag.
//!
//! The drag source owns the selection, tells windows under the pointer that the
//! drag enters, moves and leaves, and serves the dragged files on request. This
//! module holds what the source remembers between these events and decides what
//! it does next. Requests to the display server are given back as a list of
//! [`XdndAction`]s, in the order in which they are carried out.

use vstd::prelude::*;

use crate::atoms::XdndAtoms;
use crate::desktop::{DesktopFacts, Finding, FindingView, Knowledge};
use crate::dnd::DragSessionStats;
use crate::handoff::{
    bridge_hover_streak_after_sample, evaluate_bridge_handoff, handoff_decision, sample_counts,
    streak_after, BridgeHandoffDecision,
};
use crate::payload::FileDragPayloadData;
use crate::request::copy_bytes;
use crate::target::{
    anonymous_bridge, bridge_release_target, find_under_pointer, is_anonymous_xdnd_bridge,
    is_drag_origin_window, is_real_xdnd_target, real_target, release_target, under_pointer,
    BridgeRelease, Probe,
};
use crate::text::{is_switched_on, switches_on};

verus! {

/// The XDND protocol version that the source speaks.
pub const XDND_VERSION: u32 = 5;

/// Version and "more than three types" flag of an `XdndEnter` message.
pub const ENTER_FLAGS: u32 = 0x0500_0001;

/// The timestamp that stands for "now".
pub const CURRENT_TIME: u32 = 0;

/// The atom that stands for "none".
pub const NO_ATOM: u32 = 0;

/// Whether all diagnostics are wanted: what `AUDIO_PLUGIN_DND_VERBOSE` says, where it is
/// set.
#[must_use]
pub fn verbose_logging(value: Option<&str>) -> (verbose: bool)
    ensures
        verbose == (value matches Some(text) && switches_on(text@)),
{
    match value {
        Some(text) => is_switched_on(text),
        None => false,
    }
}

/// What stays the same during a drag.
#[derive(Clone, Copy, Debug, PartialEq, Eq)]
pub struct XdndConfig {
    pub drag_id: u64,
    pub atoms: XdndAtoms,
    /// Window that owns the drag selection.
    pub source_window: u32,
    /// Editor window that the drag came from.
    pub origin_window: Option<u32>,
    /// The three types that an `XdndEnter` message names.
    pub enter_types: (u32, u32, u32),
    /// Whether a portal file transfer is ready.
    pub portal: bool,
    /// Whether all diagnostics are wanted.
    pub verbose: bool,
}

/// What the drag source remembers between events.
#[derive(Clone, Copy, Debug, PartialEq, Eq, Structural)]
pub struct XdndSession {
    pub last_event_time: u32,
    /// Window that the drag has entered.
    pub current_target: Option<u32>,
    /// Window that accepts the drag.
    pub accepted_target: Option<u32>,
    /// Last named window that the drag entered.
    pub last_real_target: Option<u32>,
    /// Last named window that asked for data.
    pub last_real_data_target: Option<u32>,
    /// Last named window that accepted the drag.
    pub last_real_accepted_target: Option<u32>,
    pub last_logged_accept: Option<u32>,
    /// Window that the drop was sent to.
    pub drop_target: Option<u32>,
    /// Data requests of the drop target since the drop.
    pub drop_target_data_requests: usize,
    /// Data requests since the drop.
    pub post_drop_data_requests: usize,
    /// Requests for the drag selection.
    pub selection_requests: usize,
    /// Requests for the dragged files.
    pub data_requests: usize,
    pub logged_data_request: bool,
    /// Whether the preview window exists.
    pub preview: bool,
    /// Samples over a compositor bridge.
    pub bridge_hover_streak: u32,
    pub saw_pointer_leave_origin: bool,
    pub logged_handoff_suppressed_origin: bool,
    /// Whether the drag was handed to the native Wayland route.
    pub handoff_performed: bool,
}

/// A client message to a window.
#[derive(Clone, Copy, Debug, PartialEq, Eq)]
pub struct ClientMessage {
    pub target: u32,
    pub message_type: u32,
    pub data: (u32, u32, u32, u32, u32),
}

/// A diagnostic of the drag source.
#[derive(Clone, Copy, Debug, PartialEq, Eq, Structural)]
pub enum XdndNote {
    /// The drag is handed to the native Wayland route.
    Handoff,
    /// A handover did not take place.
    Suppressed(BridgeHandoffDecision),
    /// The drag entered a window.
    Entered(u32),
    /// The button was released.
    Released { raw_x: i16, raw_y: i16, x: i16, y: i16 },
    /// The button was released over a compositor bridge.
    Bridged { release: BridgeRelease, x: i16, y: i16, preview: bool },
    /// The drop was sent to a window.
    DropSent(u32),
    /// A window accepts the drag.
    Accepts { target: u32, flags: u32, action: u32 },
    /// A window does not accept the drag.
    Declines { target: u32, flags: u32, action: u32 },
    /// A window asked for the dragged files for the first time.
    Requested { after_drop: bool, requestor: u32, target: u32 },
    /// A window asked for the dragged files again.
    Served { portal: bool, requestor: u32, target: u32 },
}

/// What the drag source does next.
#[derive(Clone, Copy, Debug, PartialEq, Eq)]
pub enum XdndAction {
    /// Send a client message.
    Send(ClientMessage),
    /// Write the offered types to `XdndTypeList` of the source window.
    AnnounceTypes,
    /// Move the preview to a pointer position.
    MovePreview { x: i16, y: i16 },
    /// Destroy the preview window.
    DestroyPreview,
    /// Give up the drag selection.
    ReleaseSelection,
    /// Destroy the source window.
    DestroySource,
    /// Report a diagnostic.
    Note(XdndNote),
}

// ---------------------------------------------------------------------------
// Messages
// ---------------------------------------------------------------------------

/// A position in one word: 16 bits of `x` above 16 bits of `y`.
pub open spec fn packed_position(x: i16, y: i16) -> u32 {
    ((x as int % 0x1_0000) * 0x1_0000 + y as int % 0x1_0000) as u32
}

/// A position in one word: 16 bits of `x` above 16 bits of `y`.
pub fn pack_position(x: i16, y: i16) -> (xy: u32)
    ensures
        xy == packed_position(x, y),
{
    let high: u32 = if x < 0 {
        (x as i32 + 0x1_0000) as u32
    } else {
        x as u32
    };
    let low: u32 = if y < 0 {
        (y as i32 + 0x1_0000) as u32
    } else {
        y as u32
    };
    assert(high == x as int % 0x1_0000);
    assert(low == y as int % 0x1_0000);
    high * 0x1_0000 + low
}

impl XdndConfig {
    /// The message that the drag enters a window.
    pub open spec fn enter(self, target: u32) -> ClientMessage {
        ClientMessage {
            target,
            message_type: self.atoms.xdnd_enter,
            data: (
                self.source_window,
                ENTER_FLAGS,
                self.enter_types.0,
                self.enter_types.1,
                self.enter_types.2,
            ),
        }
    }

    /// The message that the drag moves over a window.
    pub open spec fn position(self, target: u32, x: i16, y: i16, time: u32) -> ClientMessage {
        ClientMessage {
            target,
            message_type: self.atoms.xdnd_position,
            data: (
                self.source_window,
                0,
                packed_position(x, y),
                time,
                self.atoms.xdnd_action_copy,
            ),
        }
    }

    /// The message that the drag leaves a window.
    pub open spec fn leave(self, target: u32) -> ClientMessage {
        ClientMessage {
            target,
            message_type: self.atoms.xdnd_leave,
            data: (self.source_window, 0, 0, 0, 0),
        }
    }

    /// The message that the drag is dropped on a window.
    pub open spec fn drop(self, target: u32, time: u32) -> ClientMessage {
        ClientMessage {
            target,
            message_type: self.atoms.xdnd_drop,
            data: (self.source_window, 0, time, 0, 0),
        }
    }

    fn send_enter(&self, target: u32) -> (action: XdndAction)
        ensures
            action == XdndAction::Send(self.enter(target)),
    {
        XdndAction::Send(
            ClientMessage {
                target,
                message_type: self.atoms.xdnd_enter,
                data: (
                    self.source_window,
                    ENTER_FLAGS,
                    self.enter_types.0,
                    self.enter_types.1,
                    self.enter_types.2,
                ),
            },
        )
    }

    fn send_position(&self, target: u32, x: i16, y: i16, time: u32) -> (action: XdndAction)
        ensures
            action == XdndAction::Send(self.position(target, x, y, time)),
    {
        let xy: u32 = pack_position(x, y);
        XdndAction::Send(
            ClientMessage {
                target,
                message_type: self.atoms.xdnd_position,
                data: (self.source_window, 0, xy, time, self.atoms.xdnd_action_copy),
            },
        )
    }

    fn send_leave(&self, target: u32) -> (action: XdndAction)
        ensures
            action == XdndAction::Send(self.leave(target)),
    {
        XdndAction::Send(
            ClientMessage {
                target,
                message_type: self.atoms.xdnd_leave,
                data: (self.source_window, 0, 0, 0, 0),
            },
        )
    }

    fn send_drop(&self, target: u32, time: u32) -> (action: XdndAction)
        ensures
            action == XdndAction::Send(self.drop(target, time)),
    {
        XdndAction::Send(
            ClientMessage {
                target,
                message_type: self.atoms.xdnd_drop,
                data: (self.source_window, 0, time, 0, 0),
            },
        )
    }
}

// ---------------------------------------------------------------------------
// The session
// ---------------------------------------------------------------------------

impl XdndSession {
    /// Whether the request counters fit together: every data request of the drop
    /// target came after the drop, and every data request is a selection request.
    pub open spec fn valid(self) -> bool {
        &&& self.drop_target_data_requests <= self.post_drop_data_requests
        &&& self.post_drop_data_requests <= self.data_requests
        &&& self.data_requests <= self.selection_requests
        &&& self.drop_target is None ==> self.post_drop_data_requests == 0
        &&& self.handoff_performed ==> self.current_target is None && !self.preview
    }

    /// The session at the start of a drag.
    pub open spec fn started(time: u32, preview: bool) -> XdndSession {
        XdndSession {
            last_event_time: time,
            current_target: None,
            accepted_target: None,
            last_real_target: None,
            last_real_data_target: None,
            last_real_accepted_target: None,
            last_logged_accept: None,
            drop_target: None,
            drop_target_data_requests: 0,
            post_drop_data_requests: 0,
            selection_requests: 0,
            data_requests: 0,
            logged_data_request: false,
            preview,
            bridge_hover_streak: 0,
            saw_pointer_leave_origin: false,
            logged_handoff_suppressed_origin: false,
            handoff_performed: false,
        }
    }

    /// Start a session with the server time at which the selection was taken.
    pub fn new(time: u32, preview: bool) -> (session: XdndSession)
        ensures
            session == XdndSession::started(time, preview),
            session.valid(),
    {
        XdndSession {
            last_event_time: time,
            current_target: None,
            accepted_target: None,
            last_real_target: None,
            last_real_data_target: None,
            last_real_accepted_target: None,
            last_logged_accept: None,
            drop_target: None,
            drop_target_data_requests: 0,
            post_drop_data_requests: 0,
            selection_requests: 0,
            data_requests: 0,
            logged_data_request: false,
            preview,
            bridge_hover_streak: 0,
            saw_pointer_leave_origin: false,
            logged_handoff_suppressed_origin: false,
            handoff_performed: false,
        }
    }

    /// The session after an event with a timestamp.
    pub open spec fn timed(self, time: u32) -> XdndSession {
        if time == CURRENT_TIME {
            self
        } else {
            XdndSession { last_event_time: time, ..self }
        }
    }

    /// Note the timestamp of an event.
    pub fn note_event_time(&mut self, time: u32)
        ensures
            *final(self) == old(self).timed(time),
    {
        if time != CURRENT_TIME {
            self.last_event_time = time;
        }
    }

    /// The session after the drag left its target.
    pub open spec fn without_target(self) -> XdndSession {
        XdndSession { current_target: None, accepted_target: None, ..self }
    }

    /// What is sent when the drag leaves its target.
    pub open spec fn leaving(self, config: XdndConfig) -> Seq<XdndAction> {
        match self.current_target {
            Some(target) => seq![XdndAction::Send(config.leave(target))],
            None => seq![],
        }
    }

    /// Leave the window that the drag has entered, if there is one.
    pub fn leave_current_target(&mut self, config: &XdndConfig) -> (actions: Vec<XdndAction>)
        ensures
            *final(self) == old(self).without_target(),
            actions@ == old(self).leaving(*config),
    {
        let mut actions: Vec<XdndAction> = Vec::new();
        if let Some(target) = self.current_target {
            actions.push(config.send_leave(target));
        }
        self.current_target = None;
        self.accepted_target = None;
        assert(actions@ =~= old(self).leaving(*config));
        actions
    }
}

// ---------------------------------------------------------------------------
// The pointer moves
// ---------------------------------------------------------------------------

/// A sample of the pointer.
#[derive(Clone, Copy, Debug, PartialEq, Eq, Structural)]
pub struct PointerSample {
    /// Position as reported by the server.
    pub raw_x: i16,
    pub raw_y: i16,
    /// Position that targets are looked up at.
    pub x: i16,
    pub y: i16,
    /// Whether the primary button is held.
    pub button1_held: bool,
    /// Whether the native Wayland route may be taken.
    pub route_enabled: bool,
}

/// What lies under the pointer.
#[derive(Clone, Copy, Debug, PartialEq, Eq, Structural)]
pub struct PointerObservation {
    /// Drop target under the pointer.
    pub target: Option<u32>,
    /// Whether the pointer went from a compositor bridge to something else.
    pub left_bridge: bool,
    /// Whether the target has a class or a title.
    pub target_is_real: bool,
    /// Whether the pointer is over the editor that the drag came from.
    pub over_origin: bool,
    /// Whether the target is a compositor bridge that a handover may use.
    pub over_bridge: bool,
}

/// Whether the pointer goes from a compositor bridge to something else.
pub open spec fn leaves_bridge(k: Knowledge, current: Option<u32>, target: Option<u32>) -> FindingView<
    bool,
> {
    if target == current {
        FindingView::Known(false)
    } else {
        match current {
            None => FindingView::Known(false),
            Some(previous) => match anonymous_bridge(k, previous) {
                FindingView::Known(true) => match target {
                    None => FindingView::Known(true),
                    Some(next) => match anonymous_bridge(k, next) {
                        FindingView::Known(bridge) => FindingView::Known(!bridge),
                        other => other,
                    },
                },
                other => other,
            },
        }
    }
}

/// Whether a target, if there is one, has a class or a title.
pub open spec fn real_if_any(k: Knowledge, target: Option<u32>) -> FindingView<bool> {
    match target {
        None => FindingView::Known(false),
        Some(w) => real_target(k, w),
    }
}

/// Whether a target, if there is one, is a compositor bridge.
pub open spec fn bridge_if_any(k: Knowledge, target: Option<u32>, route_enabled: bool) -> FindingView<
    bool,
> {
    match target {
        None => FindingView::Known(false),
        Some(w) => if route_enabled {
            anonymous_bridge(k, w)
        } else {
            FindingView::Known(false)
        },
    }
}

/// Whether the pointer is over the origin window, if there is one.
pub open spec fn pointer_over(k: Knowledge, origin: Option<u32>) -> FindingView<bool> {
    match origin {
        None => FindingView::Known(false),
        Some(w) => under_pointer(k, w),
    }
}

/// The reason why a finding is not known.
pub open spec fn unknown<A, B>(found: FindingView<A>) -> FindingView<B> {
    match found {
        FindingView::Ask(question) => FindingView::Ask(question),
        FindingView::Failed(message) => FindingView::Failed(message),
        FindingView::Known(_) => arbitrary(),
    }
}

/// What lies under the pointer, for a drag that has entered `current`.
pub open spec fn observation(
    k: Knowledge,
    origin: Option<u32>,
    current: Option<u32>,
    target: Option<u32>,
    route_enabled: bool,
) -> FindingView<PointerObservation> {
    match leaves_bridge(k, current, target) {
        FindingView::Known(left_bridge) => match real_if_any(k, target) {
            FindingView::Known(target_is_real) => match pointer_over(k, origin) {
                FindingView::Known(over_origin) => match bridge_if_any(k, target, route_enabled) {
                    FindingView::Known(over_bridge) => FindingView::Known(
                        PointerObservation {
                            target,
                            left_bridge,
                            target_is_real,
                            over_origin,
                            over_bridge,
                        },
                    ),
                    other => unknown(other),
                },
                other => unknown(other),
            },
            other => unknown(other),
        },
        other => unknown(other),
    }
}

/// Whether two optional windows are the same.
pub fn same_window(a: Option<u32>, b: Option<u32>) -> (same: bool)
    ensures
        same == (a == b),
{
    match (a, b) {
        (Some(x), Some(y)) => x == y,
        (None, None) => true,
        _ => false,
    }
}

fn find_leaves_bridge(facts: &DesktopFacts, current: Option<u32>, target: Option<u32>) -> (found:
    Finding<bool>)
    ensures
        found@ == leaves_bridge(facts@, current, target),
{
    if same_window(target, current) {
        return Finding::Known(false);
    }
    match current {
        None => Finding::Known(false),
        Some(previous) => match is_anonymous_xdnd_bridge(facts, previous) {
            Finding::Known(true) => match target {
                None => Finding::Known(true),
                Some(next) => match is_anonymous_xdnd_bridge(facts, next) {
                    Finding::Known(bridge) => Finding::Known(!bridge),
                    other => other,
                },
            },
            other => other,
        },
    }
}

/// Whether the pointer is over the origin window, if there is one.
pub fn is_pointer_over_origin(facts: &DesktopFacts, origin: Option<u32>) -> (found: Finding<bool>)
    ensures
        found@ == pointer_over(facts@, origin),
{
    match origin {
        None => Finding::Known(false),
        Some(w) => find_under_pointer(facts, w),
    }
}

fn find_real_if_any(facts: &DesktopFacts, target: Option<u32>) -> (found: Finding<bool>)
    ensures
        found@ == real_if_any(facts@, target),
{
    match target {
        None => Finding::Known(false),
        Some(w) => is_real_xdnd_target(facts, w),
    }
}

fn find_bridge_if_any(facts: &DesktopFacts, target: Option<u32>, route_enabled: bool) -> (found:
    Finding<bool>)
    ensures
        found@ == bridge_if_any(facts@, target, route_enabled),
{
    match target {
        None => Finding::Known(false),
        Some(w) => if route_enabled {
            is_anonymous_xdnd_bridge(facts, w)
        } else {
            Finding::Known(false)
        },
    }
}

/// What lies under the pointer, for a drag that has entered `current`.
///
/// `target` is the outcome of the search for a drop target, or `None` when the
/// pointer is on another screen.
pub fn observe_pointer(
    facts: &DesktopFacts,
    origin: Option<u32>,
    current: Option<u32>,
    target: Option<u32>,
    route_enabled: bool,
) -> (found: Finding<PointerObservation>)
    ensures
        found@ == observation(facts@, origin, current, target, route_enabled),
{
    let left_bridge = match find_leaves_bridge(facts, current, target) {
        Finding::Known(flag) => flag,
        Finding::Ask(question) => {
            return Finding::Ask(question);
        },
        Finding::Failed(message) => {
            return Finding::Failed(message);
        },
    };
    let target_is_real = match find_real_if_any(facts, target) {
        Finding::Known(flag) => flag,
        Finding::Ask(question) => {
            return Finding::Ask(question);
        },
        Finding::Failed(message) => {
            return Finding::Failed(message);
        },
    };
    let over_origin = match is_pointer_over_origin(facts, origin) {
        Finding::Known(flag) => flag,
        Finding::Ask(question) => {
            return Finding::Ask(question);
        },
        Finding::Failed(message) => {
            return Finding::Failed(message);
        },
    };
    let over_bridge = match find_bridge_if_any(facts, target, route_enabled) {
        Finding::Known(flag) => flag,
        Finding::Ask(question) => {
            return Finding::Ask(question);
        },
        Finding::Failed(message) => {
            return Finding::Failed(message);
        },
    };
    Finding::Known(
        PointerObservation { target, left_bridge, target_is_real, over_origin, over_bridge },
    )
}

impl XdndSession {
    /// The session after the drag went to the target under the pointer.
    pub open spec fn retargeted(self, seen: PointerObservation) -> XdndSession {
        if seen.target == self.current_target {
            self
        } else {
            let is_real = seen.target is Some && seen.target_is_real;
            XdndSession {
                current_target: seen.target,
                accepted_target: None,
                last_real_target: if is_real {
                    seen.target
                } else {
                    self.last_real_target
                },
                bridge_hover_streak: if seen.left_bridge || is_real {
                    0
                } else {
                    self.bridge_hover_streak
                },
                ..self
            }
        }
    }

    /// What is sent when the drag goes to the target under the pointer.
    pub open spec fn retargeting(self, config: XdndConfig, seen: PointerObservation) -> Seq<
        XdndAction,
    > {
        if seen.target == self.current_target {
            seq![]
        } else {
            self.leaving(config) + match seen.target {
                None => seq![],
                Some(target) => (if config.verbose {
                    seq![XdndAction::Note(XdndNote::Entered(target))]
                } else {
                    seq![]
                }) + seq![XdndAction::AnnounceTypes, XdndAction::Send(config.enter(target))],
            }
        }
    }

    /// What is sent when the drag moves over its target.
    pub open spec fn hovering(self, config: XdndConfig, sample: PointerSample) -> Seq<XdndAction> {
        (match self.current_target {
            Some(target) => seq![
                XdndAction::Send(
                    config.position(target, sample.x, sample.y, self.last_event_time),
                ),
            ],
            None => seq![],
        }) + (if self.preview {
            seq![XdndAction::MovePreview { x: sample.raw_x, y: sample.raw_y }]
        } else {
            seq![]
        })
    }

    /// The session after a sample was counted.
    pub open spec fn counted(self, seen: PointerObservation, sample: PointerSample) -> XdndSession {
        let left = self.saw_pointer_leave_origin || !seen.over_origin;
        XdndSession {
            saw_pointer_leave_origin: left,
            bridge_hover_streak: streak_after(
                self.bridge_hover_streak,
                sample_counts(
                    sample.route_enabled,
                    seen.over_bridge,
                    sample.button1_held,
                    seen.over_origin,
                    seen.target_is_real,
                    left,
                ),
            ),
            ..self
        }
    }

    /// What a counted sample says about a handover.
    pub open spec fn decision(
        self,
        seen: PointerObservation,
        sample: PointerSample,
    ) -> BridgeHandoffDecision {
        handoff_decision(
            self.bridge_hover_streak,
            sample.route_enabled,
            seen.over_bridge,
            sample.button1_held,
            seen.over_origin,
            self.saw_pointer_leave_origin,
            seen.target_is_real,
        )
    }

    /// The session after the drag was handed to the native Wayland route.
    pub open spec fn handed_over(self) -> XdndSession {
        XdndSession {
            current_target: None,
            accepted_target: None,
            preview: false,
            handoff_performed: true,
            ..self
        }
    }

    /// What is done to hand the drag to the native Wayland route.
    pub open spec fn handing_over(self, config: XdndConfig) -> Seq<XdndAction> {
        seq![XdndAction::Note(XdndNote::Handoff)] + self.leaving(config) + (if self.preview {
            seq![XdndAction::DestroyPreview]
        } else {
            seq![]
        }) + seq![XdndAction::ReleaseSelection, XdndAction::DestroySource]
    }

    /// The session after a decision about a handover.
    pub open spec fn decided(self, decision: BridgeHandoffDecision) -> XdndSession {
        if decision == BridgeHandoffDecision::Handoff {
            self.handed_over()
        } else if only_once(decision) {
            XdndSession { logged_handoff_suppressed_origin: true, ..self }
        } else {
            self
        }
    }

    /// What is done upon a decision about a handover.
    pub open spec fn deciding(self, config: XdndConfig, decision: BridgeHandoffDecision) -> Seq<
        XdndAction,
    > {
        if decision == BridgeHandoffDecision::Handoff {
            self.handing_over(config)
        } else if decision.reason() is Some && (config.verbose || (only_once(decision)
            && !self.logged_handoff_suppressed_origin)) {
            seq![XdndAction::Note(XdndNote::Suppressed(decision))]
        } else {
            seq![]
        }
    }

    /// The session after a pointer sample.
    pub open spec fn updated(self, seen: PointerObservation, sample: PointerSample) -> XdndSession {
        let counted = self.retargeted(seen).counted(seen, sample);
        counted.decided(counted.decision(seen, sample))
    }

    /// What is done upon a pointer sample.
    pub open spec fn updating(
        self,
        config: XdndConfig,
        seen: PointerObservation,
        sample: PointerSample,
    ) -> Seq<XdndAction> {
        let there = self.retargeted(seen);
        let counted = there.counted(seen, sample);
        self.retargeting(config, seen) + there.hovering(config, sample) + counted.deciding(
            config,
            counted.decision(seen, sample),
        )
    }

    fn retarget(&mut self, config: &XdndConfig, seen: &PointerObservation) -> (actions: Vec<
        XdndAction,
    >)
        ensures
            *final(self) == old(self).retargeted(*seen),
            actions@ == old(self).retargeting(*config, *seen),
    {
        let mut actions: Vec<XdndAction> = Vec::new();
        if same_window(seen.target, self.current_target) {
            return actions;
        }
        actions = self.leave_current_target(config);
        self.current_target = seen.target;
        if seen.left_bridge {
            self.bridge_hover_streak = 0;
        }
        if let Some(target) = seen.target {
            if seen.target_is_real {
                self.bridge_hover_streak = 0;
                self.last_real_target = Some(target);
            }
            if config.verbose {
                actions.push(XdndAction::Note(XdndNote::Entered(target)));
            }
            actions.push(XdndAction::AnnounceTypes);
            actions.push(config.send_enter(target));
        }
        assert(actions@ =~= old(self).retargeting(*config, *seen));
        actions
    }

    /// Hand the drag to the native Wayland route.
    ///
    /// The preview goes away first: a window under the cursor would take the drop.
    pub fn perform_native_handoff(&mut self, config: &XdndConfig) -> (actions: Vec<XdndAction>)
        ensures
            *final(self) == old(self).handed_over(),
            actions@ == old(self).handing_over(*config),
    {
        let mut actions: Vec<XdndAction> = vec![XdndAction::Note(XdndNote::Handoff)];
        let mut leaving = self.leave_current_target(config);
        actions.append(&mut leaving);
        if self.preview {
            actions.push(XdndAction::DestroyPreview);
            self.preview = false;
        }
        actions.push(XdndAction::ReleaseSelection);
        actions.push(XdndAction::DestroySource);
        self.handoff_performed = true;
        assert(actions@ =~= old(self).handing_over(*config));
        actions
    }

    fn decide(&mut self, config: &XdndConfig, decision: BridgeHandoffDecision) -> (actions: Vec<
        XdndAction,
    >)
        ensures
            *final(self) == old(self).decided(decision),
            actions@ == old(self).deciding(*config, decision),
    {
        let mut actions: Vec<XdndAction> = Vec::new();
        if decision == BridgeHandoffDecision::Handoff {
            actions = self.perform_native_handoff(config);
        } else if let Some(_reason) = decision.suppression_log() {
            let log_once = decision == BridgeHandoffDecision::SuppressedStillOverOrigin || decision
                == BridgeHandoffDecision::SuppressedNotLeftOrigin;
            if log_once && !self.logged_handoff_suppressed_origin {
                self.logged_handoff_suppressed_origin = true;
                actions.push(XdndAction::Note(XdndNote::Suppressed(decision)));
            } else if config.verbose {
                actions.push(XdndAction::Note(XdndNote::Suppressed(decision)));
            }
        }
        assert(actions@ =~= old(self).deciding(*config, decision));
        actions
    }

    /// Take a pointer sample: go to the target under the pointer, tell it the
    /// position, move the preview, and hand the drag over when it has settled over
    /// a native Wayland surface.
    pub fn update_target_from_pointer(
        &mut self,
        config: &XdndConfig,
        seen: &PointerObservation,
        sample: &PointerSample,
    ) -> (actions: Vec<XdndAction>)
        ensures
            *final(self) == old(self).updated(*seen, *sample),
            actions@ == old(self).updating(*config, *seen, *sample),
            old(self).valid() && !old(self).handoff_performed ==> final(self).valid(),
    {
        let mut actions = self.retarget(config, seen);
        let ghost there = *self;
        let ghost retargeting = actions@;
        if let Some(target) = self.current_target {
            actions.push(config.send_position(target, sample.x, sample.y, self.last_event_time));
        }
        if self.preview {
            actions.push(XdndAction::MovePreview { x: sample.raw_x, y: sample.raw_y });
        }
        assert(actions@ =~= retargeting + there.hovering(*config, *sample));
        if !seen.over_origin {
            self.saw_pointer_leave_origin = true;
        }
        self.bridge_hover_streak =
        bridge_hover_streak_after_sample(
            self.bridge_hover_streak,
            sample.route_enabled,
            seen.over_bridge,
            sample.button1_held,
            seen.over_origin,
            seen.target_is_real,
            self.saw_pointer_leave_origin,
        );
        assert(*self == there.counted(*seen, *sample));
        let decision = evaluate_bridge_handoff(
            self.bridge_hover_streak,
            sample.route_enabled,
            seen.over_bridge,
            sample.button1_held,
            seen.over_origin,
            self.saw_pointer_leave_origin,
            seen.target_is_real,
        );
        let mut deciding = self.decide(config, decision);
        actions.append(&mut deciding);
        assert(actions@ =~= old(self).updating(*config, *seen, *sample));
        actions
    }
}

/// Whether a suppressed handover is reported only once.
pub open spec fn only_once(decision: BridgeHandoffDecision) -> bool {
    decision == BridgeHandoffDecision::SuppressedStillOverOrigin || decision
        == BridgeHandoffDecision::SuppressedNotLeftOrigin
}

// ---------------------------------------------------------------------------
// The button is released
// ---------------------------------------------------------------------------

/// The release of the primary button.
#[derive(Clone, Copy, Debug, PartialEq, Eq, Structural)]
pub struct ButtonRelease {
    pub time: u32,
    /// Position as reported by the server.
    pub raw_x: i16,
    pub raw_y: i16,
    /// Position that targets are looked up at.
    pub x: i16,
    pub y: i16,
}

/// Where a released drag goes.
#[derive(Clone, Copy, Debug, PartialEq, Eq, Structural)]
pub enum ReleaseDecision {
    /// Nowhere: there is no target.
    NoTarget,
    /// Nowhere: the target is the editor that the drag came from.
    BackOnOrigin,
    /// To the window that the drag has entered.
    Onto(u32),
    /// To where the compositor bridge that the drag has entered leads.
    Bridged(BridgeRelease),
}

impl ReleaseDecision {
    /// The window that the drop goes to.
    pub open spec fn target(self) -> Option<u32> {
        match self {
            ReleaseDecision::NoTarget => None,
            ReleaseDecision::BackOnOrigin => None,
            ReleaseDecision::Onto(w) => Some(w),
            ReleaseDecision::Bridged(release) => Some(release.target()),
        }
    }

    /// Why a release fails, given the diagnostics for a missing target.
    pub open spec fn failure(self, diagnostics: Seq<char>) -> Option<Seq<char>> {
        match self {
            ReleaseDecision::NoTarget => Some(diagnostics),
            ReleaseDecision::BackOnOrigin => Some(
                "drop released back on plugin window; cancelled"@,
            ),
            _ => None,
        }
    }

    /// Why a release fails, given the diagnostics for a missing target.
    pub fn error(self, diagnostics: String) -> (message: Option<String>)
        ensures
            message is Some == (self.target() is None),
            message is Some == self.failure(diagnostics@) is Some,
            message matches Some(text) ==> Some(text@) == self.failure(diagnostics@),
    {
        match self {
            ReleaseDecision::NoTarget => Some(diagnostics),
            ReleaseDecision::BackOnOrigin => Some(
                "drop released back on plugin window; cancelled".to_owned(),
            ),
            ReleaseDecision::Onto(_) | ReleaseDecision::Bridged(_) => None,
        }
    }
}

/// Where a drag goes that is released in this state.
pub open spec fn release_decision(k: Knowledge, p: Probe, session: XdndSession) -> FindingView<
    ReleaseDecision,
> {
    match session.current_target {
        None => FindingView::Known(ReleaseDecision::NoTarget),
        Some(target) => if p.origin == Some(target) {
            FindingView::Known(ReleaseDecision::BackOnOrigin)
        } else {
            match anonymous_bridge(k, target) {
                FindingView::Known(false) => FindingView::Known(ReleaseDecision::Onto(target)),
                FindingView::Known(true) => match release_target(
                    k,
                    p,
                    target,
                    session.last_real_data_target,
                    session.last_real_accepted_target,
                    session.last_real_target,
                ) {
                    FindingView::Known(release) => FindingView::Known(
                        ReleaseDecision::Bridged(release),
                    ),
                    other => unknown(other),
                },
                other => unknown(other),
            }
        },
    }
}

impl XdndSession {
    /// Where a drag goes that is released now.
    pub fn decide_release(&self, facts: &DesktopFacts, p: &Probe) -> (found: Finding<
        ReleaseDecision,
    >)
        ensures
            found@ == release_decision(facts@, *p, *self),
    {
        let target: u32 = match self.current_target {
            None => {
                return Finding::Known(ReleaseDecision::NoTarget);
            },
            Some(target) => target,
        };
        if is_drag_origin_window(p.origin, target) {
            return Finding::Known(ReleaseDecision::BackOnOrigin);
        }
        match is_anonymous_xdnd_bridge(facts, target) {
            Finding::Known(false) => Finding::Known(ReleaseDecision::Onto(target)),
            Finding::Known(true) => {
                match bridge_release_target(
                    facts,
                    p,
                    target,
                    self.last_real_data_target,
                    self.last_real_accepted_target,
                    self.last_real_target,
                ) {
                    Finding::Known(release) => Finding::Known(ReleaseDecision::Bridged(release)),
                    Finding::Ask(question) => Finding::Ask(question),
                    Finding::Failed(message) => Finding::Failed(message),
                }
            },
            Finding::Ask(question) => Finding::Ask(question),
            Finding::Failed(message) => Finding::Failed(message),
        }
    }

    /// The session after a release.
    pub open spec fn released(self, time: u32, decision: ReleaseDecision) -> XdndSession {
        match decision.target() {
            None => self.timed(time).without_target(),
            Some(target) => XdndSession {
                drop_target: Some(target),
                drop_target_data_requests: 0,
                ..self.timed(time)
            },
        }
    }

    /// What is done upon a release.
    pub open spec fn releasing(
        self,
        config: XdndConfig,
        event: ButtonRelease,
        decision: ReleaseDecision,
    ) -> Seq<XdndAction> {
        let heard = XdndAction::Note(
            XdndNote::Released { raw_x: event.raw_x, raw_y: event.raw_y, x: event.x, y: event.y },
        );
        seq![heard] + match decision {
            ReleaseDecision::NoTarget => self.leaving(config),
            ReleaseDecision::BackOnOrigin => self.leaving(config),
            ReleaseDecision::Onto(target) => seq![
                XdndAction::Note(XdndNote::DropSent(target)),
                XdndAction::Send(config.drop(target, self.timed(event.time).last_event_time)),
            ],
            ReleaseDecision::Bridged(release) => seq![
                XdndAction::Note(
                    XdndNote::Bridged {
                        release,
                        x: event.x,
                        y: event.y,
                        preview: self.preview,
                    },
                ),
                XdndAction::Note(XdndNote::DropSent(release.target())),
                XdndAction::Send(
                    config.drop(release.target(), self.timed(event.time).last_event_time),
                ),
            ],
        }
    }

    /// Take a release of the primary button. Gives what is done, and whether the
    /// drop was sent.
    pub fn handle_button_release(
        &mut self,
        config: &XdndConfig,
        event: &ButtonRelease,
        decision: ReleaseDecision,
    ) -> (result: (Vec<XdndAction>, bool))
        ensures
            *final(self) == old(self).released(event.time, decision),
            result.0@ == old(self).releasing(*config, *event, decision),
            result.1 == decision.target() is Some,
            old(self).valid() ==> final(self).valid(),
    {
        self.note_event_time(event.time);
        let mut actions: Vec<XdndAction> = vec![
            XdndAction::Note(
                XdndNote::Released {
                    raw_x: event.raw_x,
                    raw_y: event.raw_y,
                    x: event.x,
                    y: event.y,
                },
            ),
        ];
        let target: u32 = match decision {
            ReleaseDecision::NoTarget | ReleaseDecision::BackOnOrigin => {
                let mut leaving = self.leave_current_target(config);
                actions.append(&mut leaving);
                assert(actions@ =~= old(self).releasing(*config, *event, decision));
                return (actions, false);
            },
            ReleaseDecision::Onto(target) => target,
            ReleaseDecision::Bridged(release) => {
                actions.push(
                    XdndAction::Note(
                        XdndNote::Bridged {
                            release,
                            x: event.x,
                            y: event.y,
                            preview: self.preview,
                        },
                    ),
                );
                release.window()
            },
        };
        actions.push(XdndAction::Note(XdndNote::DropSent(target)));
        self.drop_target = Some(target);
        self.drop_target_data_requests = 0;
        actions.push(config.send_drop(target, self.last_event_time));
        assert(actions@ =~= old(self).releasing(*config, *event, decision));
        (actions, true)
    }
}

// ---------------------------------------------------------------------------
// A target reports its status
// ---------------------------------------------------------------------------

/// An `XdndStatus` message.
#[derive(Clone, Copy, Debug, PartialEq, Eq, Structural)]
pub struct StatusMessage {
    /// Window that reports.
    pub target: u32,
    /// Bit 0 is set when the window accepts the drag.
    pub flags: u32,
    /// Action that the window would perform.
    pub action: u32,
}

impl StatusMessage {
    /// Whether the window accepts the drag.
    pub open spec fn accepts(self) -> bool {
        self.flags % 2 == 1
    }
}

impl XdndSession {
    /// The session after a window reported its status.
    pub open spec fn informed(self, status: StatusMessage, target_is_real: bool) -> XdndSession {
        if status.accepts() {
            XdndSession {
                accepted_target: Some(status.target),
                last_real_accepted_target: if target_is_real {
                    Some(status.target)
                } else {
                    self.last_real_accepted_target
                },
                last_logged_accept: Some(status.target),
                ..self
            }
        } else if self.accepted_target == Some(status.target) {
            XdndSession {
                accepted_target: None,
                last_real_accepted_target: if self.last_real_accepted_target == Some(
                    status.target,
                ) {
                    None
                } else {
                    self.last_real_accepted_target
                },
                last_logged_accept: None,
                ..self
            }
        } else {
            XdndSession { last_logged_accept: Some(status.target), ..self }
        }
    }

    /// What is reported when a window reports its status.
    pub open spec fn informing(self, config: XdndConfig, status: StatusMessage) -> Seq<
        XdndAction,
    > {
        let fresh = self.last_logged_accept != Some(status.target);
        if status.accepts() {
            if fresh {
                seq![
                    XdndAction::Note(
                        XdndNote::Accepts {
                            target: status.target,
                            flags: status.flags,
                            action: status.action,
                        },
                    ),
                ]
            } else {
                seq![]
            }
        } else if config.verbose && (self.accepted_target == Some(status.target) || fresh) {
            seq![
                XdndAction::Note(
                    XdndNote::Declines {
                        target: status.target,
                        flags: status.flags,
                        action: status.action,
                    },
                ),
            ]
        } else {
            seq![]
        }
    }

    /// Take an `XdndStatus` message. `target_is_real` says whether the window has a
    /// class or a title; it counts only when the window accepts.
    pub fn handle_status(
        &mut self,
        config: &XdndConfig,
        status: &StatusMessage,
        target_is_real: bool,
    ) -> (actions: Vec<XdndAction>)
        ensures
            *final(self) == old(self).informed(*status, target_is_real),
            actions@ == old(self).informing(*config, *status),
            old(self).valid() ==> final(self).valid(),
    {
        let mut actions: Vec<XdndAction> = Vec::new();
        let target: u32 = status.target;
        let fresh = !same_window(self.last_logged_accept, Some(target));
        if status.flags % 2 == 1 {
            self.accepted_target = Some(target);
            if target_is_real {
                self.last_real_accepted_target = Some(target);
            }
            if fresh {
                self.last_logged_accept = Some(target);
                actions.push(
                    XdndAction::Note(
                        XdndNote::Accepts { target, flags: status.flags, action: status.action },
                    ),
                );
            }
        } else if same_window(self.accepted_target, Some(target)) {
            self.accepted_target = None;
            if same_window(self.last_real_accepted_target, Some(target)) {
                self.last_real_accepted_target = None;
            }
            self.last_logged_accept = None;
            if config.verbose {
                actions.push(
                    XdndAction::Note(
                        XdndNote::Declines { target, flags: status.flags, action: status.action },
                    ),
                );
            }
        } else if fresh {
            self.last_logged_accept = Some(target);
            if config.verbose {
                actions.push(
                    XdndAction::Note(
                        XdndNote::Declines { target, flags: status.flags, action: status.action },
                    ),
                );
            }
        }
        assert(actions@ =~= old(self).informing(*config, *status));
        actions
    }
}

// ---------------------------------------------------------------------------
// A window asks for the drag selection
// ---------------------------------------------------------------------------

/// A `SelectionRequest` event.
#[derive(Clone, Copy, Debug, PartialEq, Eq, Structural)]
pub struct SelectionRequest {
    pub time: u32,
    pub requestor: u32,
    pub selection: u32,
    /// The form that is asked for.
    pub target: u32,
    /// The property that takes the answer, or [`NO_ATOM`].
    pub property: u32,
}

/// The answer to a `SelectionRequest` event.
#[derive(Clone, Copy, Debug, PartialEq, Eq, Structural)]
pub struct SelectionNotify {
    pub time: u32,
    pub requestor: u32,
    pub selection: u32,
    pub target: u32,
    /// The property that holds the data, or [`NO_ATOM`].
    pub property: u32,
}

/// The form in which the drag selection is served.
#[derive(Clone, Copy, Debug, PartialEq, Eq, Structural)]
pub enum SelectionForm {
    /// Not at all.
    Refused,
    /// The list of offered forms.
    Targets,
    /// The key of a portal file transfer.
    PortalKey,
    /// The files as a GNOME copied-files list.
    GnomeFiles,
    /// The files as plain paths.
    PlainFiles,
    /// The files as a URI list.
    UriList,
}

impl SelectionForm {
    /// Whether the form hands out the dragged files.
    pub open spec fn is_data(self) -> bool {
        match self {
            SelectionForm::Refused => false,
            SelectionForm::Targets => false,
            _ => true,
        }
    }

    fn hands_out_files(self) -> (data: bool)
        ensures
            data == self.is_data(),
    {
        match self {
            SelectionForm::Refused | SelectionForm::Targets => false,
            SelectionForm::PortalKey
            | SelectionForm::GnomeFiles
            | SelectionForm::PlainFiles
            | SelectionForm::UriList => true,
        }
    }
}

impl XdndConfig {
    /// Whether an atom asks for plain paths.
    pub open spec fn is_plain(self, target: u32) -> bool {
        target == self.atoms.text_plain_utf8 || target == self.atoms.text_plain || target
            == self.atoms.utf8_string || target == self.atoms.string
    }

    /// Whether an atom asks for a URI list.
    pub open spec fn is_uri_list(self, target: u32) -> bool {
        target == self.atoms.text_uri_list || target == self.atoms.text_uri_list_utf8 || target
            == self.atoms.text_x_uri || target == self.atoms.application_x_kde4_urilist
    }

    /// The form in which a request is served.
    pub open spec fn form(self, request: SelectionRequest) -> SelectionForm {
        if request.selection != self.atoms.xdnd_selection {
            SelectionForm::Refused
        } else if request.target == self.atoms.targets {
            SelectionForm::Targets
        } else if self.portal && self.atoms.mimes().portal(request.target) {
            SelectionForm::PortalKey
        } else if request.target == self.atoms.x_special_gnome_copied_files {
            SelectionForm::GnomeFiles
        } else if self.is_plain(request.target) {
            SelectionForm::PlainFiles
        } else if self.is_uri_list(request.target) {
            SelectionForm::UriList
        } else {
            SelectionForm::Refused
        }
    }

    /// Whether an atom asks for the key of a portal file transfer that is ready.
    pub fn is_portal_filetransfer_target(&self, target: u32) -> (portal: bool)
        ensures
            portal == (self.portal && self.atoms.mimes().portal(target)),
    {
        self.portal && self.atoms.mime_targets().is_portal_target(target)
    }

    /// The form in which a request is served.
    pub fn selection_form(&self, request: &SelectionRequest) -> (form: SelectionForm)
        ensures
            form == self.form(*request),
    {
        let target: u32 = request.target;
        if request.selection != self.atoms.xdnd_selection {
            SelectionForm::Refused
        } else if target == self.atoms.targets {
            SelectionForm::Targets
        } else if self.is_portal_filetransfer_target(target) {
            SelectionForm::PortalKey
        } else if target == self.atoms.x_special_gnome_copied_files {
            SelectionForm::GnomeFiles
        } else if target == self.atoms.text_plain_utf8 || target == self.atoms.text_plain || target
            == self.atoms.utf8_string || target == self.atoms.string {
            SelectionForm::PlainFiles
        } else if target == self.atoms.text_uri_list || target == self.atoms.text_uri_list_utf8
            || target == self.atoms.text_x_uri || target
            == self.atoms.application_x_kde4_urilist {
            SelectionForm::UriList
        } else {
            SelectionForm::Refused
        }
    }
}

impl SelectionRequest {
    /// The property that takes the answer.
    pub open spec fn answer_property(self) -> u32 {
        if self.property == NO_ATOM {
            self.target
        } else {
            self.property
        }
    }

    /// The answer, with the property that holds the data.
    pub open spec fn answer(self, form: SelectionForm) -> SelectionNotify {
        SelectionNotify {
            time: self.time,
            requestor: self.requestor,
            selection: self.selection,
            target: self.target,
            property: if form is Refused {
                NO_ATOM
            } else {
                self.answer_property()
            },
        }
    }

    /// The answer to the request when it is served in `form`.
    pub fn notify(&self, form: SelectionForm) -> (notify: SelectionNotify)
        ensures
            notify == self.answer(form),
    {
        let property: u32 = match form {
            SelectionForm::Refused => NO_ATOM,
            _ => if self.property == NO_ATOM {
                self.target
            } else {
                self.property
            },
        };
        SelectionNotify {
            time: self.time,
            requestor: self.requestor,
            selection: self.selection,
            target: self.target,
            property,
        }
    }
}

/// The bytes that a request is served with, when it is served with bytes.
pub open spec fn served_bytes(
    form: SelectionForm,
    payload: FileDragPayloadData,
    portal_key: Option<Vec<u8>>,
) -> Option<Seq<u8>> {
    match form {
        SelectionForm::Refused => None,
        SelectionForm::Targets => None,
        SelectionForm::PortalKey => match portal_key {
            Some(key) => Some(key@),
            None => None,
        },
        SelectionForm::GnomeFiles => Some(payload@.gnome_copied_files),
        SelectionForm::PlainFiles => Some(payload@.plain_file_list),
        SelectionForm::UriList => Some(payload@.uri_list),
    }
}

/// The bytes that a request is served with, when it is served with bytes.
pub fn selection_bytes(
    form: SelectionForm,
    payload: &FileDragPayloadData,
    portal_key: &Option<Vec<u8>>,
) -> (bytes: Option<Vec<u8>>)
    ensures
        bytes is Some == served_bytes(form, *payload, *portal_key) is Some,
        bytes matches Some(data) ==> Some(data@) == served_bytes(form, *payload, *portal_key),
{
    match form {
        SelectionForm::Refused | SelectionForm::Targets => None,
        SelectionForm::PortalKey => match portal_key {
            Some(key) => Some(copy_bytes(key)),
            None => None,
        },
        SelectionForm::GnomeFiles => Some(copy_bytes(payload.gnome_copied_files())),
        SelectionForm::PlainFiles => Some(copy_bytes(payload.plain_file_list())),
        SelectionForm::UriList => Some(copy_bytes(payload.uri_list())),
    }
}

/// The list of forms that answers a request for [`SelectionForm::Targets`].
pub fn selection_targets(targets: u32, offered: &Vec<u32>) -> (list: Vec<u32>)
    ensures
        list@ == seq![targets] + offered@,
{
    let mut list: Vec<u32> = vec![targets];
    for i in 0..offered.len()
        invariant
            list@ == seq![targets] + offered@.take(i as int),
    {
        list.push(offered[i]);
        assert(seq![targets] + offered@.take(i + 1) =~= (seq![targets] + offered@.take(
            i as int,
        )).push(offered@[i as int]));
    }
    assert(offered@.take(offered@.len() as int) == offered@);
    list
}

/// What is written to the property of the window that asked.
#[derive(Clone, Debug, PartialEq, Eq)]
pub enum SelectionData {
    /// Bytes, of the type that was asked for.
    Bytes(Vec<u8>),
    /// A list of atoms.
    Targets(Vec<u32>),
}

/// What is written to a property, as a mathematical value.
pub enum DataView {
    Bytes(Seq<u8>),
    Targets(Seq<u32>),
}

impl View for SelectionData {
    type V = DataView;

    open spec fn view(&self) -> DataView {
        match *self {
            SelectionData::Bytes(bytes) => DataView::Bytes(bytes@),
            SelectionData::Targets(targets) => DataView::Targets(targets@),
        }
    }
}

/// The whole answer to a request for the drag selection: the data goes to the property
/// that the event names, then the event is sent.
#[derive(Clone, Debug, PartialEq, Eq)]
pub struct SelectionAnswer {
    pub notify: SelectionNotify,
    pub data: Option<SelectionData>,
}

/// An answer as a mathematical value.
pub struct AnswerView {
    pub notify: SelectionNotify,
    pub data: Option<DataView>,
}

impl View for SelectionAnswer {
    type V = AnswerView;

    open spec fn view(&self) -> AnswerView {
        AnswerView {
            notify: self.notify,
            data: match self.data {
                Some(data) => Some(data@),
                None => None,
            },
        }
    }
}

/// The whole answer to a request for the drag selection. Event and data belong to the
/// same form.
pub open spec fn answered(
    config: XdndConfig,
    request: SelectionRequest,
    payload: FileDragPayloadData,
    portal_key: Option<Vec<u8>>,
    offered: Seq<u32>,
) -> AnswerView {
    let form = config.form(request);
    AnswerView {
        notify: request.answer(form),
        data: match form {
            SelectionForm::Targets => Some(
                DataView::Targets(seq![config.atoms.targets] + offered),
            ),
            _ => match served_bytes(form, payload, portal_key) {
                Some(bytes) => Some(DataView::Bytes(bytes)),
                None => None,
            },
        },
    }
}

/// The whole answer to a request for the drag selection. `offered` lists the forms that
/// the drag offers; `portal_key` is the key of a portal file transfer, where one is ready.
pub fn answer_selection(
    config: &XdndConfig,
    request: &SelectionRequest,
    payload: &FileDragPayloadData,
    portal_key: &Option<Vec<u8>>,
    offered: &Vec<u32>,
) -> (answer: SelectionAnswer)
    requires
        config.portal == portal_key is Some,
    ensures
        answer@ == answered(*config, *request, *payload, *portal_key, offered@),
        answer.notify == request.answer(config.form(*request)),
        answer.data is Some == !(config.form(*request) is Refused),
{
    let form = config.selection_form(request);
    let notify = request.notify(form);
    let data: Option<SelectionData> = match form {
        SelectionForm::Targets => Some(
            SelectionData::Targets(selection_targets(config.atoms.targets, offered)),
        ),
        _ => match selection_bytes(form, payload, portal_key) {
            Some(bytes) => Some(SelectionData::Bytes(bytes)),
            None => None,
        },
    };
    SelectionAnswer { notify, data }
}

impl XdndSession {
    /// The session after a request for the drag selection.
    pub open spec fn asked(
        self,
        config: XdndConfig,
        request: SelectionRequest,
        requestor_is_real: bool,
    ) -> XdndSession {
        let form = config.form(request);
        if request.selection != config.atoms.xdnd_selection {
            self
        } else if !form.is_data() {
            XdndSession { selection_requests: (self.selection_requests + 1) as usize, ..self }
        } else {
            XdndSession {
                selection_requests: (self.selection_requests + 1) as usize,
                data_requests: (self.data_requests + 1) as usize,
                post_drop_data_requests: if self.drop_target is Some {
                    (self.post_drop_data_requests + 1) as usize
                } else {
                    self.post_drop_data_requests
                },
                drop_target_data_requests: if self.drop_target == Some(request.requestor) {
                    (self.drop_target_data_requests + 1) as usize
                } else {
                    self.drop_target_data_requests
                },
                last_real_data_target: if requestor_is_real {
                    Some(request.requestor)
                } else {
                    self.last_real_data_target
                },
                logged_data_request: true,
                ..self
            }
        }
    }

    /// What is reported upon a request for the drag selection.
    pub open spec fn asking(self, config: XdndConfig, request: SelectionRequest) -> Seq<
        XdndAction,
    > {
        let form = config.form(request);
        if !form.is_data() {
            seq![]
        } else if !self.logged_data_request {
            seq![
                XdndAction::Note(
                    XdndNote::Requested {
                        after_drop: self.drop_target is Some,
                        requestor: request.requestor,
                        target: request.target,
                    },
                ),
            ]
        } else if config.verbose {
            seq![
                XdndAction::Note(
                    XdndNote::Served {
                        portal: form is PortalKey,
                        requestor: request.requestor,
                        target: request.target,
                    },
                ),
            ]
        } else {
            seq![]
        }
    }

    /// Take a request for the drag selection: count it and answer it.
    /// `requestor_is_real` says whether the window that asks has a class or a title.
    /// Gives what is reported, and the answer.
    pub fn handle_selection_request(
        &mut self,
        config: &XdndConfig,
        request: &SelectionRequest,
        requestor_is_real: bool,
        payload: &FileDragPayloadData,
        portal_key: &Option<Vec<u8>>,
        offered: &Vec<u32>,
    ) -> (result: (Vec<XdndAction>, SelectionAnswer))
        requires
            config.portal == portal_key is Some,
            old(self).valid(),
            old(self).selection_requests < usize::MAX,
        ensures
            *final(self) == old(self).asked(*config, *request, requestor_is_real),
            result.0@ == old(self).asking(*config, *request),
            result.1@ == answered(*config, *request, *payload, *portal_key, offered@),
            final(self).valid(),
    {
        let actions = self.count_selection_request(config, request, requestor_is_real);
        (actions, answer_selection(config, request, payload, portal_key, offered))
    }

    /// Count a request for the drag selection. Gives what is reported.
    pub(crate) fn count_selection_request(
        &mut self,
        config: &XdndConfig,
        request: &SelectionRequest,
        requestor_is_real: bool,
    ) -> (actions: Vec<XdndAction>)
        requires
            old(self).valid(),
            old(self).selection_requests < usize::MAX,
        ensures
            *final(self) == old(self).asked(*config, *request, requestor_is_real),
            actions@ == old(self).asking(*config, *request),
            final(self).valid(),
    {
        let mut actions: Vec<XdndAction> = Vec::new();
        if request.selection != config.atoms.xdnd_selection {
            assert(actions@ =~= old(self).asking(*config, *request));
            return actions;
        }
        self.selection_requests = self.selection_requests + 1;
        let form = config.selection_form(request);
        if form.hands_out_files() {
            self.data_requests = self.data_requests + 1;
            if self.drop_target.is_some() {
                self.post_drop_data_requests = self.post_drop_data_requests + 1;
            }
            if same_window(self.drop_target, Some(request.requestor)) {
                self.drop_target_data_requests = self.drop_target_data_requests + 1;
            }
            if requestor_is_real {
                self.last_real_data_target = Some(request.requestor);
            }
            if !self.logged_data_request {
                self.logged_data_request = true;
                actions.push(
                    XdndAction::Note(
                        XdndNote::Requested {
                            after_drop: self.drop_target.is_some(),
                            requestor: request.requestor,
                            target: request.target,
                        },
                    ),
                );
            } else if config.verbose {
                actions.push(
                    XdndAction::Note(
                        XdndNote::Served {
                            portal: form == SelectionForm::PortalKey,
                            requestor: request.requestor,
                            target: request.target,
                        },
                    ),
                );
            }
        }
        assert(actions@ =~= old(self).asking(*config, *request));
        actions
    }

    /// The request counters of the session.
    pub open spec fn stats(self) -> DragSessionStats {
        DragSessionStats {
            selection_requests: self.selection_requests as u32,
            pre_drop_data_requests: (if self.data_requests >= self.post_drop_data_requests {
                (self.data_requests - self.post_drop_data_requests) as usize
            } else {
                0
            }) as u32,
            post_drop_data_requests: self.post_drop_data_requests as u32,
            drop_target_data_requests: self.drop_target_data_requests as u32,
        }
    }

    /// The request counters of the session.
    pub fn session_stats(&self) -> (stats: DragSessionStats)
        ensures
            stats == self.stats(),
    {
        let before: usize = if self.data_requests >= self.post_drop_data_requests {
            self.data_requests - self.post_drop_data_requests
        } else {
            0
        };
        DragSessionStats {
            selection_requests: self.selection_requests as u32,
            pre_drop_data_requests: before as u32,
            post_drop_data_requests: self.post_drop_data_requests as u32,
            drop_target_data_requests: self.drop_target_data_requests as u32,
        }
    }

    /// Name of the occasion on which data is asked for.
    pub fn payload_request_phase(&self) -> (phase: &'static str)
        ensures
            phase@ == request_phase(self.drop_target is Some),
    {
        if self.drop_target.is_some() {
            "drop payload"
        } else {
            "hover payload"
        }
    }
}

/// Name of the occasion on which data is asked for.
pub open spec fn request_phase(after_drop: bool) -> Seq<char> {
    if after_drop {
        "drop payload"@
    } else {
        "hover payload"@
    }
}

} // verus!
