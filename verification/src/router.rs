//! XdndProxy drop router for plugin editors embedded in XWayland hosts.
//!
//! Compositor Wayland-to-X11 bridges send XDND messages only to the toplevel window
//! of the surface under the cursor, the window of the host. They honor the
//! `XdndProxy` property on that window, though. The router puts a window of its own
//! there, and relays each message that the bridge sends to it onto the deepest
//! `XdndAware` window under the drag coordinates: the plugin editor when the drag is
//! over it, the host otherwise. Targets are switched with proper leave and enter
//! pairs, like a real source does.
//!
//! Replies flow directly between the real target and the bridge, whose window is
//! kept in every relayed message.

use vstd::prelude::*;

use crate::atoms::RouterAtoms;
use crate::backend::ExternalDragError;
use crate::desktop::NO_WINDOW;
use crate::text::{
    hexadecimal, hexadecimal_text, is_switched_off, switches_off, truth, truth_text,
};
use crate::window::{DragWindow, WindowHandle};
use crate::xdnd::{packed_position, same_window};
use crate::xdnd_laws::entered;

verus! {

/// How often the router looks after the proxy property, in nanoseconds.
pub const CLAIM_INTERVAL: u64 = 2_000_000_000;

/// How far up the window tree the toplevel is looked for.
pub const TOPLEVEL_SEARCH_LIMIT: u32 = 64;

/// What stays the same while a router is installed.
#[derive(Clone, Copy, Debug, PartialEq, Eq, Structural)]
pub struct RouterConfig {
    pub root: u32,
    pub router_window: u32,
    pub toplevel: u32,
    pub atoms: RouterAtoms,
}

/// The words of a client message.
#[derive(Clone, Copy, Debug, PartialEq, Eq, Structural)]
pub struct MessageWords {
    pub w0: u32,
    pub w1: u32,
    pub w2: u32,
    pub w3: u32,
    pub w4: u32,
}

/// What a router remembers between messages.
#[derive(Clone, Copy, Debug, PartialEq, Eq, Structural)]
pub struct RouterState {
    /// Whether the router owns the proxy property of the toplevel.
    pub claimed: bool,
    /// The last `XdndEnter` message of the bridge, replayed on target switches.
    pub active_enter: Option<MessageWords>,
    pub current_target: Option<u32>,
}

/// A diagnostic of the router.
#[derive(Clone, Copy, Debug, PartialEq, Eq, Structural)]
pub enum RouterNote {
    Installed { claimed: bool },
    SelfDropIgnored { source: u32 },
    DropRelayed { target: u32, source: u32 },
    Claimed,
    HostGone,
    Uninstalled,
}

/// A message that is relayed.
#[derive(Clone, Copy, Debug, PartialEq, Eq, Structural)]
pub struct Relayed {
    pub target: u32,
    pub message_type: u32,
    pub words: MessageWords,
}

/// What the router does next.
#[derive(Clone, Copy, Debug, PartialEq, Eq, Structural)]
pub enum RouterAction {
    /// Relay a message.
    Forward(Relayed),
    /// Report a diagnostic.
    Note(RouterNote),
}

// ---------------------------------------------------------------------------
// Installing
// ---------------------------------------------------------------------------

/// The editor window of a router, or why a router is of no use. `shown` is the
/// window as shown in diagnostics, `switch` is `AUDIO_PLUGIN_DND_ROUTER`.
///
/// # Errors
///
/// Fails when the window is not an X11 window, outside a Wayland session, and when
/// the router is switched off.
pub fn router_editor_window(
    window: &DragWindow,
    shown: &str,
    wayland_display: bool,
    switch: Option<&str>,
) -> (editor: Result<u32, ExternalDragError>)
    ensures
        match x11_window(window.handle()) {
            None => editor matches Err(ExternalDragError::BackendUnavailable(message)) && message@
                == "drop router requires an X11/XWayland editor window, got "@ + shown@,
            Some(id) => if !wayland_display {
                editor matches Err(ExternalDragError::BackendUnavailable(message)) && message@
                    == "drop router is only needed under XWayland (no WAYLAND_DISPLAY)"@
            } else if switch matches Some(value) && switches_off(value@) {
                editor matches Err(ExternalDragError::BackendUnavailable(message)) && message@
                    == "drop router disabled by AUDIO_PLUGIN_DND_ROUTER"@
            } else {
                editor == Ok::<u32, ExternalDragError>(id)
            },
        },
{
    let id: u32 = match window.window() {
        WindowHandle::Xlib(id) if id != 0 => id as u32,
        WindowHandle::Xcb(id) if id != 0 => id,
        _ => {
            return Err(
                ExternalDragError::BackendUnavailable(
                    "drop router requires an X11/XWayland editor window, got ".to_owned().concat(
                        shown,
                    ),
                ),
            );
        },
    };
    if !wayland_display {
        return Err(
            ExternalDragError::BackendUnavailable(
                "drop router is only needed under XWayland (no WAYLAND_DISPLAY)".to_owned(),
            ),
        );
    }
    if let Some(value) = switch {
        if is_switched_off(value) {
            return Err(
                ExternalDragError::BackendUnavailable(
                    "drop router disabled by AUDIO_PLUGIN_DND_ROUTER".to_owned(),
                ),
            );
        }
    }
    Ok(id)
}

/// The X11 window of a handle, if it has one.
pub open spec fn x11_window(handle: WindowHandle) -> Option<u32> {
    match handle {
        WindowHandle::Xlib(id) => if id != 0 {
            Some(id as u32)
        } else {
            None
        },
        WindowHandle::Xcb(id) => if id != 0 {
            Some(id)
        } else {
            None
        },
        _ => None,
    }
}

/// The climb from an editor window to the toplevel window of its host.
#[derive(Clone, Copy, Debug, PartialEq, Eq, Structural)]
pub enum ToplevelSearch {
    /// The parent of this window is asked for; so many more may follow.
    Climbing { window: u32, left: u32 },
    /// The toplevel window.
    Found(u32),
}

impl ToplevelSearch {
    /// The search after the parent became known.
    pub open spec fn climbed(self, root: u32, parent: u32) -> ToplevelSearch {
        match self {
            ToplevelSearch::Climbing { window, left } => if parent == root || parent == NO_WINDOW {
                ToplevelSearch::Found(window)
            } else if left <= 1 {
                ToplevelSearch::Found(parent)
            } else {
                ToplevelSearch::Climbing { window: parent, left: (left - 1) as u32 }
            },
            ToplevelSearch::Found(window) => self,
        }
    }

    /// Start at an editor window.
    pub fn new(editor_window: u32) -> (search: ToplevelSearch)
        ensures
            search == (ToplevelSearch::Climbing {
                window: editor_window,
                left: TOPLEVEL_SEARCH_LIMIT,
            }),
    {
        ToplevelSearch::Climbing { window: editor_window, left: TOPLEVEL_SEARCH_LIMIT }
    }

    /// Go on with the parent of the window that was asked for.
    pub fn toplevel_of(self, root: u32, parent: u32) -> (next: ToplevelSearch)
        ensures
            next == self.climbed(root, parent),
    {
        match self {
            ToplevelSearch::Climbing { window, left } => {
                if parent == root || parent == NO_WINDOW {
                    ToplevelSearch::Found(window)
                } else if left <= 1 {
                    ToplevelSearch::Found(parent)
                } else {
                    ToplevelSearch::Climbing { window: parent, left: left - 1 }
                }
            },
            ToplevelSearch::Found(window) => ToplevelSearch::Found(window),
        }
    }
}

/// The search after some more parents, as a tree with these parents gives them.
pub open spec fn climbed_many(
    search: ToplevelSearch,
    root: u32,
    parent_of: spec_fn(u32) -> u32,
    steps: nat,
) -> ToplevelSearch
    decreases steps,
{
    if steps == 0 {
        search
    } else {
        let before = climbed_many(search, root, parent_of, (steps - 1) as nat);
        match before {
            ToplevelSearch::Climbing { window, left } => before.climbed(root, parent_of(window)),
            ToplevelSearch::Found(_) => before,
        }
    }
}

/// The search for the toplevel ends: after as many steps as it is allowed, it has
/// found a window.
pub proof fn toplevel_search_ends(
    window: u32,
    left: u32,
    root: u32,
    parent_of: spec_fn(u32) -> u32,
)
    requires
        left >= 1,
    ensures
        climbed_many(
            ToplevelSearch::Climbing { window, left },
            root,
            parent_of,
            left as nat,
        ) is Found,
{
    toplevel_search_counts_down(window, left, root, parent_of, left as nat);
}

proof fn toplevel_search_counts_down(
    window: u32,
    left: u32,
    root: u32,
    parent_of: spec_fn(u32) -> u32,
    n: nat,
)
    requires
        n <= left,
        left >= 1,
    ensures
        ({
            let reached = climbed_many(
                ToplevelSearch::Climbing { window, left },
                root,
                parent_of,
                n,
            );
            reached is Found || (n < left && reached->left == left - n)
        }),
    decreases n,
{
    if n > 0 {
        toplevel_search_counts_down(window, left, root, parent_of, (n - 1) as nat);
    }
}

// ---------------------------------------------------------------------------
// Claiming the proxy property
// ---------------------------------------------------------------------------

/// What the router does about the proxy property.
#[derive(Clone, Copy, Debug, PartialEq, Eq, Structural)]
pub enum ClaimStep {
    /// The router holds the property.
    Held,
    /// Another live window holds the property: stand by until it disappears.
    StandBy,
    /// An outbound drag is going on: leave the property alone.
    Paused,
    /// Set the property.
    Claim,
}

/// What the router does about the proxy property.
pub open spec fn claim(
    router_window: u32,
    proxy: Option<u32>,
    proxy_alive: bool,
    outbound_active: bool,
) -> ClaimStep {
    if proxy == Some(router_window) {
        ClaimStep::Held
    } else if proxy is Some && proxy_alive {
        ClaimStep::StandBy
    } else if outbound_active {
        ClaimStep::Paused
    } else {
        ClaimStep::Claim
    }
}

/// Decide about the proxy property: claim it unless a live router (ours or a sibling
/// plugin instance's) or a foreign proxy already holds it, and not while an outbound
/// drag is going on. `proxy_alive` says whether the window that holds it exists.
pub fn claim_proxy_if_available(
    router_window: u32,
    proxy: Option<u32>,
    proxy_alive: bool,
    outbound_active: bool,
) -> (step: ClaimStep)
    ensures
        step == claim(router_window, proxy, proxy_alive, outbound_active),
{
    if same_window(proxy, Some(router_window)) {
        ClaimStep::Held
    } else if proxy.is_some() && proxy_alive {
        ClaimStep::StandBy
    } else if outbound_active {
        ClaimStep::Paused
    } else {
        ClaimStep::Claim
    }
}

/// A live proxy of another window is never taken over, and nothing is claimed while
/// an outbound drag is going on.
pub proof fn claims_are_polite(
    router_window: u32,
    proxy: Option<u32>,
    proxy_alive: bool,
    outbound_active: bool,
)
    ensures
        claim(router_window, proxy, proxy_alive, outbound_active) is Claim ==> !outbound_active
            && !(proxy is Some && proxy_alive),
{
}

impl RouterState {
    /// A router that was just installed.
    pub fn new() -> (state: Self)
        ensures
            state == (RouterState { claimed: false, active_enter: None, current_target: None }),
    {
        RouterState { claimed: false, active_enter: None, current_target: None }
    }

    /// The state after a decision about the proxy property.
    pub open spec fn after_claim(self, step: ClaimStep, written: bool) -> RouterState {
        match step {
            ClaimStep::Held => RouterState { claimed: true, ..self },
            ClaimStep::StandBy => RouterState { claimed: false, ..self },
            ClaimStep::Paused => self,
            ClaimStep::Claim => RouterState { claimed: self.claimed || written, ..self },
        }
    }

    /// Note a decision about the proxy property; `written` says whether the property
    /// could be set. Gives whether the claim is news.
    pub fn note_claim(&mut self, step: ClaimStep, written: bool) -> (news: bool)
        ensures
            *final(self) == old(self).after_claim(step, written),
            news == (step is Claim && written && !old(self).claimed),
    {
        match step {
            ClaimStep::Held => {
                self.claimed = true;
                false
            },
            ClaimStep::StandBy => {
                self.claimed = false;
                false
            },
            ClaimStep::Paused => false,
            ClaimStep::Claim => {
                let news = written && !self.claimed;
                if written {
                    self.claimed = true;
                }
                news
            },
        }
    }
}

/// What the router hears of the display server.
#[derive(Clone, Copy, Debug, PartialEq, Eq, Structural)]
pub enum RouterEvent {
    /// A client message for a window.
    Message { window: u32 },
    /// Any other event.
    Other,
    /// There is no event.
    Idle,
}

/// What the router does next.
#[derive(Clone, Copy, Debug, PartialEq, Eq, Structural)]
pub enum RouterTask {
    /// Relay the message.
    Relay,
    /// Nothing.
    Ignore,
    /// Look whether the host is still there and after the proxy property, then sleep.
    LookAfterClaim,
    /// Sleep.
    Sleep,
}

/// Whether it is time to look after the proxy property.
pub open spec fn check_due(last: u64, now: u64) -> bool {
    now >= last + CLAIM_INTERVAL
}

impl RouterConfig {
    /// What is done upon an event; `last` is when the proxy property was looked after.
    pub open spec fn task_for(self, event: RouterEvent, last: u64, now: u64) -> RouterTask {
        match event {
            RouterEvent::Message { window } => if window == self.router_window {
                RouterTask::Relay
            } else {
                RouterTask::Ignore
            },
            RouterEvent::Other => RouterTask::Ignore,
            RouterEvent::Idle => if check_due(last, now) {
                RouterTask::LookAfterClaim
            } else {
                RouterTask::Sleep
            },
        }
    }

    /// What is done upon an event; `last` is when the proxy property was looked after.
    pub fn task(&self, event: RouterEvent, last: u64, now: u64) -> (task: RouterTask)
        ensures
            task == self.task_for(event, last, now),
    {
        match event {
            RouterEvent::Message { window } => {
                if window == self.router_window {
                    RouterTask::Relay
                } else {
                    RouterTask::Ignore
                }
            },
            RouterEvent::Other => RouterTask::Ignore,
            RouterEvent::Idle => {
                if claim_check_due(last, now) {
                    RouterTask::LookAfterClaim
                } else {
                    RouterTask::Sleep
                }
            },
        }
    }
}

/// Whether it is time to look after the proxy property.
pub fn claim_check_due(last: u64, now: u64) -> (due: bool)
    ensures
        due == check_due(last, now),
{
    now >= last && now - last >= CLAIM_INTERVAL
}

/// Whether the proxy property is to be removed on uninstall: only when it is still
/// the router's.
pub fn removes_proxy(router_window: u32, proxy: Option<u32>) -> (removes: bool)
    ensures
        removes == (proxy == Some(router_window)),
{
    same_window(proxy, Some(router_window))
}

// ---------------------------------------------------------------------------
// Finding the target
// ---------------------------------------------------------------------------

/// The position in a word of an `XdndPosition` message.
pub open spec fn unpacked_position(packed: u32) -> (int, int) {
    let x = packed as int / 0x1_0000;
    let y = packed as int % 0x1_0000;
    (
        if x >= 0x8000 {
            x - 0x1_0000
        } else {
            x
        },
        if y >= 0x8000 {
            y - 0x1_0000
        } else {
            y
        },
    )
}

/// The position in a word of an `XdndPosition` message.
pub fn unpack_position(packed: u32) -> (position: (i16, i16))
    ensures
        (position.0 as int, position.1 as int) == unpacked_position(packed),
{
    let x: i32 = (packed / 0x1_0000) as i32;
    let y: i32 = (packed % 0x1_0000) as i32;
    let signed_x: i32 = if x >= 0x8000 {
        x - 0x1_0000
    } else {
        x
    };
    let signed_y: i32 = if y >= 0x8000 {
        y - 0x1_0000
    } else {
        y
    };
    (signed_x as i16, signed_y as i16)
}

/// A position that a drag source packs into a word is the one that the router reads
/// out of it, also left of and above the origin.
pub proof fn position_survives_the_message(x: i16, y: i16)
    ensures
        unpacked_position(packed_position(x, y)) == (x as int, y as int),
{
    let high = x as int % 0x1_0000;
    let low = y as int % 0x1_0000;
    assert(0 <= high < 0x1_0000);
    assert(0 <= low < 0x1_0000);
    let packed = high * 0x1_0000 + low;
    assert(packed_position(x, y) as int == packed);
    assert(packed / 0x1_0000 == high);
    assert(packed % 0x1_0000 == low);
}

/// The search for the window that a message is relayed to.
#[derive(Clone, Copy, Debug, PartialEq, Eq, Structural)]
pub enum ResolveStep {
    /// The child of this window under the position is asked for.
    AskChild(u32),
    /// Whether this window carries `XdndAware` is asked for.
    AskAware(u32),
    /// The parent of this window is asked for.
    AskParent(u32),
    /// The window that the message is relayed to.
    Target(u32),
}

impl RouterConfig {
    /// Where the climb goes on at a window: the router itself takes no drops.
    pub open spec fn candidate(self, window: u32) -> ResolveStep {
        if window != self.router_window {
            ResolveStep::AskAware(window)
        } else {
            self.above(window)
        }
    }

    /// Where the climb goes on above a window that takes no drops.
    pub open spec fn above(self, window: u32) -> ResolveStep {
        if window == self.root {
            ResolveStep::Target(self.toplevel)
        } else {
            ResolveStep::AskParent(window)
        }
    }

    /// The step after the child of a window became known.
    pub open spec fn after_child(self, window: u32, child: u32) -> ResolveStep {
        if child == NO_WINDOW || child == self.router_window {
            self.candidate(window)
        } else {
            ResolveStep::AskChild(child)
        }
    }

    /// The step after it became known whether a window takes drops.
    pub open spec fn after_aware(self, window: u32, aware: bool) -> ResolveStep {
        if aware {
            ResolveStep::Target(window)
        } else {
            self.above(window)
        }
    }

    /// The step after the parent of a window became known.
    pub open spec fn after_parent(self, parent: u32) -> ResolveStep {
        if parent == NO_WINDOW {
            ResolveStep::Target(self.toplevel)
        } else {
            self.candidate(parent)
        }
    }

    /// Start the search for the deepest `XdndAware` window under a position.
    pub fn resolve_target(&self) -> (step: ResolveStep)
        ensures
            step == ResolveStep::AskChild(self.root),
    {
        ResolveStep::AskChild(self.root)
    }

    fn climb_above(&self, window: u32) -> (step: ResolveStep)
        ensures
            step == self.above(window),
    {
        if window == self.root {
            ResolveStep::Target(self.toplevel)
        } else {
            ResolveStep::AskParent(window)
        }
    }

    fn climb_at(&self, window: u32) -> (step: ResolveStep)
        ensures
            step == self.candidate(window),
    {
        if window != self.router_window {
            ResolveStep::AskAware(window)
        } else {
            self.climb_above(window)
        }
    }

    /// Go on with the child of `window` under the position.
    pub fn resolve_child(&self, window: u32, child: u32) -> (step: ResolveStep)
        ensures
            step == self.after_child(window, child),
    {
        if child == NO_WINDOW || child == self.router_window {
            self.climb_at(window)
        } else {
            ResolveStep::AskChild(child)
        }
    }

    /// Go on with whether `window` carries `XdndAware`.
    pub fn resolve_aware(&self, window: u32, aware: bool) -> (step: ResolveStep)
        ensures
            step == self.after_aware(window, aware),
    {
        if aware {
            ResolveStep::Target(window)
        } else {
            self.climb_above(window)
        }
    }

    /// Go on with the parent of a window.
    pub fn resolve_parent(&self, parent: u32) -> (step: ResolveStep)
        ensures
            step == self.after_parent(parent),
    {
        if parent == NO_WINDOW {
            ResolveStep::Target(self.toplevel)
        } else {
            self.climb_at(parent)
        }
    }
}

/// What the display server answers while a position is looked up.
pub struct Answers {
    pub child: spec_fn(u32) -> u32,
    pub aware: spec_fn(u32) -> bool,
    pub parent: spec_fn(u32) -> u32,
}

/// The search after some more answers.
pub open spec fn resolved(
    config: RouterConfig,
    answers: Answers,
    step: ResolveStep,
    count: nat,
) -> ResolveStep
    decreases count,
{
    if count == 0 {
        step
    } else {
        match resolved(config, answers, step, (count - 1) as nat) {
            ResolveStep::AskChild(w) => config.after_child(w, (answers.child)(w)),
            ResolveStep::AskAware(w) => config.after_aware(w, (answers.aware)(w)),
            ResolveStep::AskParent(w) => config.after_parent((answers.parent)(w)),
            ResolveStep::Target(w) => ResolveStep::Target(w),
        }
    }
}

/// A message is relayed to a window that takes drops, other than the router, or else
/// to the host toplevel.
pub proof fn relayed_to_an_aware_window_or_the_host(
    config: RouterConfig,
    answers: Answers,
    count: nat,
    target: u32,
)
    requires
        resolved(config, answers, ResolveStep::AskChild(config.root), count)
            == ResolveStep::Target(target),
    ensures
        target == config.toplevel || ((answers.aware)(target) && target != config.router_window),
    decreases count,
{
    resolve_stays_off_the_router(config, answers, count);
}

proof fn resolve_stays_off_the_router(config: RouterConfig, answers: Answers, count: nat)
    ensures
        match resolved(config, answers, ResolveStep::AskChild(config.root), count) {
            ResolveStep::AskAware(w) => w != config.router_window,
            ResolveStep::Target(w) => w == config.toplevel || ((answers.aware)(w) && w
                != config.router_window),
            _ => true,
        },
    decreases count,
{
    if count > 0 {
        resolve_stays_off_the_router(config, answers, (count - 1) as nat);
    }
}

// ---------------------------------------------------------------------------
// Relaying
// ---------------------------------------------------------------------------

impl RouterConfig {
    /// Whether a message type belongs to a drag.
    pub open spec fn is_drag_message(self, message_type: u32) -> bool {
        message_type == self.atoms.xdnd_enter || message_type == self.atoms.xdnd_position
            || message_type == self.atoms.xdnd_leave || message_type == self.atoms.xdnd_drop
    }

    fn carries_drag(&self, message_type: u32) -> (carries: bool)
        ensures
            carries == self.is_drag_message(message_type),
    {
        message_type == self.atoms.xdnd_enter || message_type == self.atoms.xdnd_position
            || message_type == self.atoms.xdnd_leave || message_type == self.atoms.xdnd_drop
    }

    /// Whether a target is needed to relay a message.
    pub fn needs_target(&self, message_type: u32, outbound_active: bool) -> (needed: bool)
        ensures
            needed == (!outbound_active && message_type == self.atoms.xdnd_position && message_type
                != self.atoms.xdnd_enter),
    {
        !outbound_active && message_type == self.atoms.xdnd_position && message_type
            != self.atoms.xdnd_enter
    }
}

impl RouterState {
    /// The state after the drag is over for the router.
    pub open spec fn idle(self) -> RouterState {
        RouterState { active_enter: None, current_target: None, ..self }
    }

    /// What is relayed when the drag goes to another target.
    pub open spec fn switching(self, config: RouterConfig, target: u32, source: u32) -> Seq<
        RouterAction,
    > {
        (match self.current_target {
            Some(previous) => seq![
                RouterAction::Forward(
                    Relayed {
                        target: previous,
                        message_type: config.atoms.xdnd_leave,
                        words: MessageWords { w0: source, w1: 0, w2: 0, w3: 0, w4: 0 },
                    },
                ),
            ],
            None => seq![],
        }) + (match self.active_enter {
            Some(enter) => seq![
                RouterAction::Forward(
                    Relayed { target, message_type: config.atoms.xdnd_enter, words: enter },
                ),
            ],
            None => seq![],
        })
    }

    /// The state after a message of whose actions the first `done` ones were carried out,
    /// and the next one, where there is one, was not. `target` is the window under the
    /// position.
    ///
    /// A target is current once it was told of the drag. A drop that was not relayed
    /// changes nothing, and a leave that was not relayed keeps the announced drag.
    pub open spec fn settled(
        self,
        config: RouterConfig,
        message_type: u32,
        words: MessageWords,
        outbound_active: bool,
        target: u32,
        done: int,
    ) -> RouterState {
        if outbound_active && config.is_drag_message(message_type) {
            self.idle()
        } else if message_type == config.atoms.xdnd_enter {
            RouterState { active_enter: Some(words), current_target: None, ..self }
        } else if message_type == config.atoms.xdnd_position {
            if self.current_target == Some(target) {
                self
            } else if done < self.switching(config, target, words.w0).len() {
                RouterState { current_target: None, ..self }
            } else {
                RouterState { current_target: Some(target), ..self }
            }
        } else if message_type == config.atoms.xdnd_leave {
            if self.current_target is Some && done < 1 {
                RouterState { current_target: None, ..self }
            } else {
                self.idle()
            }
        } else if message_type == config.atoms.xdnd_drop {
            if self.current_target is Some && done < 2 {
                self
            } else {
                self.idle()
            }
        } else {
            self
        }
    }

    /// The state after a message whose actions were all carried out. `target` is the window
    /// under the position.
    pub open spec fn messaged(
        self,
        config: RouterConfig,
        message_type: u32,
        words: MessageWords,
        outbound_active: bool,
        target: u32,
    ) -> RouterState {
        self.settled(
            config,
            message_type,
            words,
            outbound_active,
            target,
            self.messaging(config, message_type, words, outbound_active, target).len() as int,
        )
    }

    /// What is done upon a message. `target` is the window under the position.
    pub open spec fn messaging(
        self,
        config: RouterConfig,
        message_type: u32,
        words: MessageWords,
        outbound_active: bool,
        target: u32,
    ) -> Seq<RouterAction> {
        if outbound_active && config.is_drag_message(message_type) {
            if message_type == config.atoms.xdnd_drop {
                seq![RouterAction::Note(RouterNote::SelfDropIgnored { source: words.w0 })]
            } else {
                seq![]
            }
        } else if message_type == config.atoms.xdnd_enter {
            seq![]
        } else if message_type == config.atoms.xdnd_position {
            (if self.current_target == Some(target) {
                seq![]
            } else {
                self.switching(config, target, words.w0)
            }) + seq![RouterAction::Forward(Relayed { target, message_type, words })]
        } else if message_type == config.atoms.xdnd_leave {
            match self.current_target {
                Some(current) => seq![
                    RouterAction::Forward(Relayed { target: current, message_type, words }),
                ],
                None => seq![],
            }
        } else if message_type == config.atoms.xdnd_drop {
            match self.current_target {
                Some(current) => seq![
                    RouterAction::Note(
                        RouterNote::DropRelayed { target: current, source: words.w0 },
                    ),
                    RouterAction::Forward(Relayed { target: current, message_type, words }),
                ],
                None => seq![],
            }
        } else {
            seq![]
        }
    }

    fn switch_target(&self, config: &RouterConfig, target: u32, source: u32) -> (actions: Vec<
        RouterAction,
    >)
        ensures
            actions@ == self.switching(*config, target, source),
    {
        let mut actions: Vec<RouterAction> = Vec::new();
        if let Some(previous) = self.current_target {
            actions.push(
                RouterAction::Forward(
                    Relayed {
                        target: previous,
                        message_type: config.atoms.xdnd_leave,
                        words: MessageWords { w0: source, w1: 0, w2: 0, w3: 0, w4: 0 },
                    },
                ),
            );
        }
        if let Some(enter) = self.active_enter {
            actions.push(
                RouterAction::Forward(
                    Relayed { target, message_type: config.atoms.xdnd_enter, words: enter },
                ),
            );
        }
        assert(actions@ =~= self.switching(*config, target, source));
        actions
    }

    /// What is done upon a message of the bridge, in order, up to the first action that
    /// fails. [`Self::settle`] then takes how many were carried out. `target` is the window
    /// under the position of an `XdndPosition` message, and does not count for other
    /// messages.
    ///
    /// An `XdndEnter` message carries no position, so it is kept and relayed with the
    /// first position. While an outbound drag of this process is going on, nothing is
    /// relayed: the drag would come back into its own editor.
    #[must_use]
    pub fn handle_client_message(
        &self,
        config: &RouterConfig,
        message_type: u32,
        words: MessageWords,
        outbound_active: bool,
        target: u32,
    ) -> (actions: Vec<RouterAction>)
        ensures
            actions@ == self.messaging(*config, message_type, words, outbound_active, target),
    {
        let mut actions: Vec<RouterAction> = Vec::new();
        let atoms: RouterAtoms = config.atoms;
        if outbound_active && config.carries_drag(message_type) {
            if message_type == atoms.xdnd_drop {
                actions.push(RouterAction::Note(RouterNote::SelfDropIgnored { source: words.w0 }));
            }
        } else if message_type == atoms.xdnd_enter {
            // It is relayed with the first position.
        } else if message_type == atoms.xdnd_position {
            if !same_window(self.current_target, Some(target)) {
                actions = self.switch_target(config, target, words.w0);
            }
            actions.push(RouterAction::Forward(Relayed { target, message_type, words }));
        } else if message_type == atoms.xdnd_leave {
            if let Some(current) = self.current_target {
                actions.push(
                    RouterAction::Forward(Relayed { target: current, message_type, words }),
                );
            }
        } else if message_type == atoms.xdnd_drop {
            if let Some(current) = self.current_target {
                actions.push(
                    RouterAction::Note(
                        RouterNote::DropRelayed { target: current, source: words.w0 },
                    ),
                );
                actions.push(
                    RouterAction::Forward(Relayed { target: current, message_type, words }),
                );
            }
        }
        assert(actions@ =~= self.messaging(
            *config,
            message_type,
            words,
            outbound_active,
            target,
        ));
        actions
    }

    /// Take a message of the bridge of whose actions the first `done` ones were carried
    /// out, and the next one, where there is one, was not.
    pub fn settle(
        &mut self,
        config: &RouterConfig,
        message_type: u32,
        words: MessageWords,
        outbound_active: bool,
        target: u32,
        done: usize,
    )
        ensures
            *final(self) == old(self).settled(
                *config,
                message_type,
                words,
                outbound_active,
                target,
                done as int,
            ),
    {
        let atoms: RouterAtoms = config.atoms;
        if outbound_active && config.carries_drag(message_type) {
            self.active_enter = None;
            self.current_target = None;
        } else if message_type == atoms.xdnd_enter {
            self.active_enter = Some(words);
            self.current_target = None;
        } else if message_type == atoms.xdnd_position {
            if !same_window(self.current_target, Some(target)) {
                let told = self.switch_target(config, target, words.w0).len();
                self.current_target = if done < told {
                    None
                } else {
                    Some(target)
                };
            }
        } else if message_type == atoms.xdnd_leave {
            if self.current_target.is_none() || done >= 1 {
                self.active_enter = None;
            }
            self.current_target = None;
        } else if message_type == atoms.xdnd_drop {
            if self.current_target.is_none() || done >= 2 {
                self.active_enter = None;
                self.current_target = None;
            }
        }
    }
}

/// A drop that could not be relayed is not forgotten: the drag stays announced, over the
/// same window.
pub proof fn unsent_drop_is_kept(
    state: RouterState,
    config: RouterConfig,
    words: MessageWords,
    target: u32,
    done: int,
)
    requires
        config.atoms.xdnd_drop != config.atoms.xdnd_enter,
        config.atoms.xdnd_drop != config.atoms.xdnd_position,
        config.atoms.xdnd_drop != config.atoms.xdnd_leave,
        state.current_target is Some,
        0 <= done < state.messaging(config, config.atoms.xdnd_drop, words, false, target).len(),
    ensures
        state.settled(config, config.atoms.xdnd_drop, words, false, target, done) == state,
{
}

/// While an outbound drag is going on, no drag message is relayed, and the router
/// forgets the drag that was announced.
pub proof fn outbound_drags_are_not_relayed(
    state: RouterState,
    config: RouterConfig,
    message_type: u32,
    words: MessageWords,
    target: u32,
    i: int,
)
    requires
        config.is_drag_message(message_type),
        0 <= i < state.messaging(config, message_type, words, true, target).len(),
    ensures
        !(state.messaging(config, message_type, words, true, target)[i] is Forward),
        state.messaged(config, message_type, words, true, target) == state.idle(),
{
}

/// When a drag goes from one window to another, the one that it goes away from is told
/// so first, and the next one hears of the drag before it hears of the position.
pub proof fn targets_are_switched_in_order(
    state: RouterState,
    config: RouterConfig,
    words: MessageWords,
    enter: MessageWords,
    previous: u32,
    target: u32,
)
    requires
        config.atoms.xdnd_enter != config.atoms.xdnd_position,
        state.active_enter == Some(enter),
        state.current_target == Some(previous),
        previous != target,
    ensures
        state.messaging(config, config.atoms.xdnd_position, words, false, target) == seq![
            RouterAction::Forward(
                Relayed {
                    target: previous,
                    message_type: config.atoms.xdnd_leave,
                    words: MessageWords { w0: words.w0, w1: 0, w2: 0, w3: 0, w4: 0 },
                },
            ),
            RouterAction::Forward(
                Relayed { target, message_type: config.atoms.xdnd_enter, words: enter },
            ),
            RouterAction::Forward(
                Relayed { target, message_type: config.atoms.xdnd_position, words },
            ),
        ],
        state.messaged(
            config,
            config.atoms.xdnd_position,
            words,
            false,
            target,
        ).current_target == Some(target),
{
    assert(state.messaging(config, config.atoms.xdnd_position, words, false, target) =~= seq![
        RouterAction::Forward(
            Relayed {
                target: previous,
                message_type: config.atoms.xdnd_leave,
                words: MessageWords { w0: words.w0, w1: 0, w2: 0, w3: 0, w4: 0 },
            },
        ),
        RouterAction::Forward(
            Relayed { target, message_type: config.atoms.xdnd_enter, words: enter },
        ),
        RouterAction::Forward(
            Relayed { target, message_type: config.atoms.xdnd_position, words },
        ),
    ]);
}

/// A position message of the bridge, and the window under the position.
pub struct Hover {
    pub words: MessageWords,
    pub target: u32,
}

/// Whether the message types that are relayed can be told apart.
pub open spec fn relayed_types_differ(config: RouterConfig) -> bool {
    &&& config.atoms.xdnd_enter != config.atoms.xdnd_position
    &&& config.atoms.xdnd_enter != config.atoms.xdnd_leave
    &&& config.atoms.xdnd_position != config.atoms.xdnd_leave
}

/// The windows that know of the drag after some actions: a relayed `XdndEnter` message
/// adds its window, an `XdndLeave` message removes it.
pub open spec fn reached(
    config: RouterConfig,
    actions: Seq<RouterAction>,
    windows: Set<u32>,
) -> Set<u32>
    decreases actions.len(),
{
    if actions.len() == 0 {
        windows
    } else {
        let before = reached(config, actions.drop_last(), windows);
        match actions.last() {
            RouterAction::Forward(relayed) => if relayed.message_type == config.atoms.xdnd_enter {
                before.insert(relayed.target)
            } else if relayed.message_type == config.atoms.xdnd_leave {
                before.remove(relayed.target)
            } else {
                before
            },
            RouterAction::Note(_) => before,
        }
    }
}

/// The state after some position messages.
pub open spec fn hovered(
    config: RouterConfig,
    state: RouterState,
    hovers: Seq<Hover>,
) -> RouterState
    decreases hovers.len(),
{
    if hovers.len() == 0 {
        state
    } else {
        hovered(config, state, hovers.drop_last()).messaged(
            config,
            config.atoms.xdnd_position,
            hovers.last().words,
            false,
            hovers.last().target,
        )
    }
}

/// What is done upon some position messages.
pub open spec fn hovering(
    config: RouterConfig,
    state: RouterState,
    hovers: Seq<Hover>,
) -> Seq<RouterAction>
    decreases hovers.len(),
{
    if hovers.len() == 0 {
        seq![]
    } else {
        hovering(config, state, hovers.drop_last()) + hovered(
            config,
            state,
            hovers.drop_last(),
        ).messaging(
            config,
            config.atoms.xdnd_position,
            hovers.last().words,
            false,
            hovers.last().target,
        )
    }
}

proof fn reached_splits(
    config: RouterConfig,
    first: Seq<RouterAction>,
    second: Seq<RouterAction>,
    windows: Set<u32>,
)
    ensures
        reached(config, first + second, windows) == reached(
            config,
            second,
            reached(config, first, windows),
        ),
    decreases second.len(),
{
    if second.len() == 0 {
        assert(first + second =~= first);
    } else {
        assert((first + second).drop_last() =~= first + second.drop_last());
        assert((first + second).last() == second.last());
        reached_splits(config, first, second.drop_last(), windows);
    }
}

proof fn hover_reaches(config: RouterConfig, state: RouterState, hover: Hover)
    requires
        relayed_types_differ(config),
        state.active_enter is Some,
    ensures
        reached(
            config,
            state.messaging(config, config.atoms.xdnd_position, hover.words, false, hover.target),
            entered(state.current_target),
        ) == entered(Some(hover.target)),
{
    reveal_with_fuel(reached, 4);
    let actions = state.messaging(
        config,
        config.atoms.xdnd_position,
        hover.words,
        false,
        hover.target,
    );
    let windows = entered(state.current_target);
    if state.current_target == Some(hover.target) {
        assert(actions.drop_last() =~= seq![]);
    } else {
        let init = actions.drop_last();
        assert(reached(config, actions, windows) == reached(config, init, windows));
        match state.current_target {
            Some(previous) => {
                assert(init.drop_last().drop_last() =~= seq![]);
                assert(set![previous].remove(previous) =~= Set::<u32>::empty());
            },
            None => {
                assert(init.drop_last() =~= seq![]);
            },
        }
    }
}

/// While the bridge moves a drag that it announced, the windows that were told of it
/// and not told that it left are exactly the window that it is over; and when the
/// bridge leaves, no window is left with it.
pub proof fn relayed_drag_is_over_one_window(
    config: RouterConfig,
    state: RouterState,
    hovers: Seq<Hover>,
    words: MessageWords,
    target: u32,
)
    requires
        relayed_types_differ(config),
        state.active_enter is Some,
    ensures
        reached(config, hovering(config, state, hovers), entered(state.current_target)) == entered(
            hovered(config, state, hovers).current_target,
        ),
        reached(
            config,
            hovered(config, state, hovers).messaging(
                config,
                config.atoms.xdnd_leave,
                words,
                false,
                target,
            ),
            entered(hovered(config, state, hovers).current_target),
        ) == Set::<u32>::empty(),
        hovered(config, state, hovers).active_enter == state.active_enter,
    decreases hovers.len(),
{
    if hovers.len() > 0 {
        let rest = hovers.drop_last();
        relayed_drag_is_over_one_window(config, state, rest, words, target);
        let before = hovered(config, state, rest);
        hover_reaches(config, before, hovers.last());
        reached_splits(
            config,
            hovering(config, state, rest),
            before.messaging(
                config,
                config.atoms.xdnd_position,
                hovers.last().words,
                false,
                hovers.last().target,
            ),
            entered(state.current_target),
        );
    }
    let there = hovered(config, state, hovers);
    let leaving = there.messaging(config, config.atoms.xdnd_leave, words, false, target);
    reveal_with_fuel(reached, 2);
    if let Some(current) = there.current_target {
        assert(leaving.drop_last() =~= seq![]);
        assert(set![current].remove(current) =~= Set::<u32>::empty());
    }
}

/// However far a position message was relayed, the window that counts as the current one
/// afterwards was told of the drag.
pub proof fn current_target_was_told(
    config: RouterConfig,
    state: RouterState,
    hover: Hover,
    done: int,
)
    requires
        relayed_types_differ(config),
        state.active_enter is Some,
        0 <= done <= state.messaging(
            config,
            config.atoms.xdnd_position,
            hover.words,
            false,
            hover.target,
        ).len(),
    ensures
        state.settled(
            config,
            config.atoms.xdnd_position,
            hover.words,
            false,
            hover.target,
            done,
        ).current_target matches Some(window) ==> reached(
            config,
            state.messaging(
                config,
                config.atoms.xdnd_position,
                hover.words,
                false,
                hover.target,
            ).take(done),
            entered(state.current_target),
        ).contains(window),
{
    hover_reaches(config, state, hover);
    let actions = state.messaging(
        config,
        config.atoms.xdnd_position,
        hover.words,
        false,
        hover.target,
    );
    let windows = entered(state.current_target);
    reveal_with_fuel(reached, 2);
    assert(actions.take(actions.len() as int) =~= actions);
    assert(actions.take(actions.len() - 1) =~= actions.drop_last());
    if state.current_target == Some(hover.target) {
        assert(actions.take(0) =~= seq![]);
    } else {
        assert(actions.len() == state.switching(config, hover.target, hover.words.w0).len() + 1);
    }
}

/// The window of the bridge stays in every relayed message, so that replies reach
/// the bridge.
pub proof fn relayed_messages_name_their_source(
    state: RouterState,
    config: RouterConfig,
    message_type: u32,
    words: MessageWords,
    outbound_active: bool,
    target: u32,
    i: int,
)
    requires
        state.active_enter matches Some(enter) ==> enter.w0 == words.w0,
        0 <= i < state.messaging(config, message_type, words, outbound_active, target).len(),
    ensures
        state.messaging(config, message_type, words, outbound_active, target)[i] matches
            RouterAction::Forward(relayed) ==> relayed.words.w0 == words.w0,
{
}

// ---------------------------------------------------------------------------
// Diagnostics
// ---------------------------------------------------------------------------

/// What the router could not do.
#[derive(Clone, Copy, Debug, PartialEq, Eq, Structural)]
pub enum RouterFailure {
    /// It could not be installed.
    Install,
    /// It lost its connection.
    Connection,
    /// It could not relay a message.
    Relay,
}

/// The text of a failure with its reason.
pub open spec fn router_failure_line(failure: RouterFailure, reason: Seq<char>) -> Seq<char> {
    (match failure {
        RouterFailure::Install => "[dnd-router] install failed: "@,
        RouterFailure::Connection => "[dnd-router] connection lost: "@,
        RouterFailure::Relay => "[dnd-router] relay error: "@,
    }) + reason
}

/// The text of a failure with its reason.
pub fn router_failure_text(failure: RouterFailure, reason: &str) -> (text: String)
    ensures
        text@ == router_failure_line(failure, reason@),
{
    let head = match failure {
        RouterFailure::Install => "[dnd-router] install failed: ",
        RouterFailure::Connection => "[dnd-router] connection lost: ",
        RouterFailure::Relay => "[dnd-router] relay error: ",
    };
    head.to_owned().concat(reason)
}

/// The text of a diagnostic.
pub open spec fn router_line(config: RouterConfig, note: RouterNote) -> Seq<char> {
    match note {
        RouterNote::Installed { claimed } => "[dnd-router] installed: router=0x"@ + hexadecimal(
            config.router_window as nat,
        ) + ", toplevel=0x"@ + hexadecimal(config.toplevel as nat) + ", claimed="@ + truth(claimed),
        RouterNote::SelfDropIgnored { source } =>
            "[dnd-router] ignored outbound self-drop from source 0x"@ + hexadecimal(source as nat),
        RouterNote::DropRelayed { target, source } => "[dnd-router] drop relayed to 0x"@
            + hexadecimal(target as nat) + " (source 0x"@ + hexadecimal(source as nat) + ")"@,
        RouterNote::Claimed => "[dnd-router] claimed XdndProxy on toplevel 0x"@ + hexadecimal(
            config.toplevel as nat,
        ),
        RouterNote::HostGone => "[dnd-router] host toplevel destroyed; stopping"@,
        RouterNote::Uninstalled => "[dnd-router] uninstalled from toplevel 0x"@ + hexadecimal(
            config.toplevel as nat,
        ),
    }
}

/// The text of a diagnostic.
pub fn router_note_text(config: &RouterConfig, note: RouterNote) -> (text: String)
    ensures
        text@ == router_line(*config, note),
{
    match note {
        RouterNote::Installed { claimed } => {
            let router = hexadecimal_text(config.router_window);
            let toplevel = hexadecimal_text(config.toplevel);
            "[dnd-router] installed: router=0x".to_owned().concat(router.as_str()).concat(
                ", toplevel=0x",
            ).concat(toplevel.as_str()).concat(", claimed=").concat(truth_text(claimed))
        },
        RouterNote::SelfDropIgnored { source } => {
            let source = hexadecimal_text(source);
            "[dnd-router] ignored outbound self-drop from source 0x".to_owned().concat(
                source.as_str(),
            )
        },
        RouterNote::DropRelayed { target, source } => {
            let target = hexadecimal_text(target);
            let source = hexadecimal_text(source);
            "[dnd-router] drop relayed to 0x".to_owned().concat(target.as_str()).concat(
                " (source 0x",
            ).concat(source.as_str()).concat(")")
        },
        RouterNote::Claimed => {
            let toplevel = hexadecimal_text(config.toplevel);
            "[dnd-router] claimed XdndProxy on toplevel 0x".to_owned().concat(toplevel.as_str())
        },
        RouterNote::HostGone => "[dnd-router] host toplevel destroyed; stopping".to_owned(),
        RouterNote::Uninstalled => {
            let toplevel = hexadecimal_text(config.toplevel);
            "[dnd-router] uninstalled from toplevel 0x".to_owned().concat(toplevel.as_str())
        },
    }
}

// ---------------------------------------------------------------------------
// What a router does
// ---------------------------------------------------------------------------

/// The proxy property is claimed exactly when nobody alive holds it and no outbound drag is
/// going on; it counts as held when it names the router, and is left to another live window.
pub proof fn proxy_is_claimed_when_it_is_free(
    router_window: u32,
    proxy: Option<u32>,
    proxy_alive: bool,
    outbound_active: bool,
)
    ensures
        ({
            let step = claim(router_window, proxy, proxy_alive, outbound_active);
            let own = proxy == Some(router_window);
            let taken = proxy is Some && proxy_alive;
            &&& step is Held <==> own
            &&& step is StandBy <==> !own && taken
            &&& step is Paused <==> !own && !taken && outbound_active
            &&& step is Claim <==> !own && !taken && !outbound_active
        }),
{
}

/// The router knows that it holds the property when it saw so or could write it, and that it
/// does not when another window holds it; a drag in relay is not touched.
pub proof fn claims_are_remembered(state: RouterState, written: bool)
    ensures
        state.after_claim(ClaimStep::Held, written).claimed,
        !state.after_claim(ClaimStep::StandBy, written).claimed,
        state.after_claim(ClaimStep::Paused, written) == state,
        state.after_claim(ClaimStep::Claim, true).claimed,
        state.after_claim(ClaimStep::Claim, false) == state,
        forall|step: ClaimStep|
            (#[trigger] state.after_claim(step, written)).active_enter == state.active_enter
                && state.after_claim(step, written).current_target == state.current_target,
{
}

/// The router relays the messages to its own window and no others, and looks after the
/// property when two seconds have passed since it last did and nothing else happens.
pub proof fn router_hears_its_own_messages(config: RouterConfig, window: u32, last: u64, now: u64)
    ensures
        config.task_for(RouterEvent::Message { window }, last, now) is Relay <==> window
            == config.router_window,
        window != config.router_window ==> config.task_for(
            RouterEvent::Message { window },
            last,
            now,
        ) is Ignore,
        config.task_for(RouterEvent::Other, last, now) is Ignore,
        config.task_for(RouterEvent::Idle, last, now) is LookAfterClaim <==> now - last
            >= 2_000_000_000,
        config.task_for(RouterEvent::Idle, last, now) is Sleep <==> now - last < 2_000_000_000,
{
}

/// Whether some windows lie in each other: each is the child of the one before under the
/// position.
pub open spec fn is_descent(config: RouterConfig, answers: Answers, down: Seq<u32>) -> bool {
    &&& down.len() > 0
    &&& down[0] == config.root
    &&& forall|i: int|
        0 <= i < down.len() - 1 ==> {
            &&& #[trigger] down[i + 1] == (answers.child)(down[i])
            &&& down[i + 1] != 0
            &&& down[i + 1] != config.router_window
        }
}

/// Whether some windows contain each other: each is the parent of the one before.
pub open spec fn is_ascent(config: RouterConfig, answers: Answers, up: Seq<u32>) -> bool {
    &&& up.len() > 0
    &&& forall|i: int|
        0 <= i < up.len() - 1 ==> {
            &&& #[trigger] up[i + 1] == (answers.parent)(up[i])
            &&& up[i + 1] != 0
            &&& up[i] != config.root
        }
}

/// Whether a window is one that a message can be relayed to.
pub open spec fn takes_drops(config: RouterConfig, answers: Answers, window: u32) -> bool {
    window != config.router_window && (answers.aware)(window)
}

proof fn descends(config: RouterConfig, answers: Answers, down: Seq<u32>, n: int) -> (count: nat)
    requires
        is_descent(config, answers, down),
        0 <= n < down.len(),
    ensures
        resolved(config, answers, ResolveStep::AskChild(config.root), count)
            == ResolveStep::AskChild(down[n]),
    decreases n,
{
    if n == 0 {
        0
    } else {
        let before = descends(config, answers, down, n - 1);
        assert(down[n - 1 + 1] == (answers.child)(down[n - 1]));
        before + 1
    }
}

proof fn ascends(
    config: RouterConfig,
    answers: Answers,
    down: Seq<u32>,
    up: Seq<u32>,
    n: int,
) -> (count: nat)
    requires
        is_descent(config, answers, down),
        is_ascent(config, answers, up),
        up[0] == down.last(),
        (answers.child)(down.last()) == 0 || (answers.child)(down.last()) == config.router_window,
        0 <= n < up.len(),
        forall|i: int| 0 <= i < n ==> !takes_drops(config, answers, #[trigger] up[i]),
    ensures
        resolved(config, answers, ResolveStep::AskChild(config.root), count) == config.candidate(
            up[n],
        ),
    decreases n,
{
    if n == 0 {
        let below = descends(config, answers, down, down.len() - 1);
        below + 1
    } else {
        let before = ascends(config, answers, down, up, n - 1);
        assert(up[n - 1 + 1] == (answers.parent)(up[n - 1]));
        assert(!takes_drops(config, answers, up[n - 1]));
        let w = up[n - 1];
        if w == config.router_window {
            assert(resolved(config, answers, ResolveStep::AskChild(config.root), before)
                == ResolveStep::AskParent(w));
            before + 1
        } else {
            assert(resolved(config, answers, ResolveStep::AskChild(config.root), before + 1)
                == ResolveStep::AskParent(w));
            before + 2
        }
    }
}

/// A message is relayed to the nearest window that takes drops: the search goes down to the
/// deepest window under the position, and from there up to the first window, other than the
/// router, that takes them.
pub proof fn relayed_to_the_nearest_window_that_takes_drops(
    config: RouterConfig,
    answers: Answers,
    down: Seq<u32>,
    up: Seq<u32>,
)
    requires
        is_descent(config, answers, down),
        is_ascent(config, answers, up),
        up[0] == down.last(),
        (answers.child)(down.last()) == 0 || (answers.child)(down.last()) == config.router_window,
        takes_drops(config, answers, up.last()),
        forall|i: int| 0 <= i < up.len() - 1 ==> !takes_drops(config, answers, #[trigger] up[i]),
    ensures
        exists|count: nat|
            #[trigger] resolved(config, answers, ResolveStep::AskChild(config.root), count)
                == ResolveStep::Target(up.last()),
{
    let before = ascends(config, answers, down, up, up.len() - 1);
    assert(resolved(config, answers, ResolveStep::AskChild(config.root), before + 1)
        == ResolveStep::Target(up.last()));
}

/// Where no window on the way up to the root takes drops, the message goes to the toplevel
/// window of the host.
pub proof fn relayed_to_the_host_without_another_window(
    config: RouterConfig,
    answers: Answers,
    down: Seq<u32>,
    up: Seq<u32>,
)
    requires
        is_descent(config, answers, down),
        is_ascent(config, answers, up),
        up[0] == down.last(),
        (answers.child)(down.last()) == 0 || (answers.child)(down.last()) == config.router_window,
        up.last() == config.root || (answers.parent)(up.last()) == 0,
        forall|i: int| 0 <= i < up.len() ==> !takes_drops(config, answers, #[trigger] up[i]),
    ensures
        exists|count: nat|
            #[trigger] resolved(config, answers, ResolveStep::AskChild(config.root), count)
                == ResolveStep::Target(config.toplevel),
{
    let before = ascends(config, answers, down, up, up.len() - 1);
    let w = up.last();
    let start = ResolveStep::AskChild(config.root);
    assert(!takes_drops(config, answers, up[up.len() - 1]));
    let next = if w == config.router_window {
        before
    } else {
        before + 1
    };
    if w == config.root {
        assert(resolved(config, answers, start, next) == ResolveStep::Target(config.toplevel));
    } else {
        assert(resolved(config, answers, start, next) == ResolveStep::AskParent(w));
        assert(resolved(config, answers, start, next + 1) == ResolveStep::Target(config.toplevel));
    }
}

/// The host of an editor is the last window on the way up before the root.
pub proof fn host_is_the_window_below_the_root(
    editor: u32,
    limit: u32,
    root: u32,
    parent_of: spec_fn(u32) -> u32,
    up: Seq<u32>,
)
    requires
        0 < up.len() <= limit,
        up[0] == editor,
        forall|i: int|
            0 <= i < up.len() - 1 ==> #[trigger] up[i + 1] == parent_of(up[i]) && up[i + 1] != root
                && up[i + 1] != 0,
        parent_of(up.last()) == root || parent_of(up.last()) == 0,
    ensures
        climbed_many(
            ToplevelSearch::Climbing { window: editor, left: limit },
            root,
            parent_of,
            up.len(),
        ) == ToplevelSearch::Found(up.last()),
{
    climbs_along(editor, limit, root, parent_of, up, up.len() - 1);
}

proof fn climbs_along(
    editor: u32,
    limit: u32,
    root: u32,
    parent_of: spec_fn(u32) -> u32,
    up: Seq<u32>,
    n: int,
)
    requires
        0 <= n < up.len() <= limit,
        up[0] == editor,
        forall|i: int|
            0 <= i < up.len() - 1 ==> #[trigger] up[i + 1] == parent_of(up[i]) && up[i + 1] != root
                && up[i + 1] != 0,
    ensures
        climbed_many(
            ToplevelSearch::Climbing { window: editor, left: limit },
            root,
            parent_of,
            n as nat,
        ) == (ToplevelSearch::Climbing { window: up[n], left: (limit - n) as u32 }),
    decreases n,
{
    if n > 0 {
        climbs_along(editor, limit, root, parent_of, up, n - 1);
        assert(up[n - 1 + 1] == parent_of(up[n - 1]));
    }
}

/// An announced drag is remembered and relayed to nobody yet. A position is told to the
/// window under it, after the announcement where the window is a new one. A leave and a drop
/// go to the window that the drag is over, and to nobody where it is over none; the drag is
/// then forgotten. Other messages do nothing.
pub proof fn messages_reach_the_window_under_the_drag(
    state: RouterState,
    config: RouterConfig,
    words: MessageWords,
    message_type: u32,
    target: u32,
)
    requires
        config.atoms.xdnd_enter != config.atoms.xdnd_position,
        config.atoms.xdnd_enter != config.atoms.xdnd_leave,
        config.atoms.xdnd_enter != config.atoms.xdnd_drop,
        config.atoms.xdnd_position != config.atoms.xdnd_leave,
        config.atoms.xdnd_position != config.atoms.xdnd_drop,
        config.atoms.xdnd_leave != config.atoms.xdnd_drop,
    ensures
        ({
            let done = state.messaging(config, config.atoms.xdnd_enter, words, false, target);
            let after = state.messaged(config, config.atoms.xdnd_enter, words, false, target);
            &&& done.len() == 0
            &&& after.active_enter == Some(words)
            &&& after.current_target is None
        }),
        ({
            let done = state.messaging(config, config.atoms.xdnd_position, words, false, target);
            let after = state.messaged(config, config.atoms.xdnd_position, words, false, target);
            &&& done.last() == RouterAction::Forward(
                Relayed { target, message_type: config.atoms.xdnd_position, words },
            )
            &&& state.current_target == Some(target) ==> done.len() == 1
            &&& state.current_target != Some(target) && state.active_enter is Some ==> done.len()
                >= 2 && done[done.len() - 2] == RouterAction::Forward(
                Relayed {
                    target,
                    message_type: config.atoms.xdnd_enter,
                    words: state.active_enter->0,
                },
            )
            &&& after.current_target == Some(target)
            &&& after.active_enter == state.active_enter
        }),
        ({
            let done = state.messaging(config, config.atoms.xdnd_leave, words, false, target);
            let after = state.messaged(config, config.atoms.xdnd_leave, words, false, target);
            &&& state.current_target matches Some(current) ==> done == seq![
                RouterAction::Forward(
                    Relayed {
                        target: current,
                        message_type: config.atoms.xdnd_leave,
                        words,
                    },
                ),
            ]
            &&& state.current_target is None ==> done.len() == 0
            &&& after.active_enter is None
            &&& after.current_target is None
            &&& after.claimed == state.claimed
        }),
        ({
            let done = state.messaging(config, config.atoms.xdnd_drop, words, false, target);
            let after = state.messaged(config, config.atoms.xdnd_drop, words, false, target);
            &&& state.current_target matches Some(current) ==> done.last()
                == RouterAction::Forward(
                Relayed { target: current, message_type: config.atoms.xdnd_drop, words },
            )
            &&& state.current_target is None ==> done.len() == 0
            &&& after.active_enter is None
            &&& after.current_target is None
            &&& after.claimed == state.claimed
        }),
        message_type != config.atoms.xdnd_enter && message_type != config.atoms.xdnd_position
            && message_type != config.atoms.xdnd_leave && message_type != config.atoms.xdnd_drop ==> {
            &&& state.messaging(config, message_type, words, false, target).len() == 0
            &&& state.messaged(config, message_type, words, false, target) == state
            &&& state.messaging(config, message_type, words, true, target).len() == 0
            &&& state.messaged(config, message_type, words, true, target) == state
        },
{
}

/// A leave that could not be relayed still leaves the window, but keeps the announced drag;
/// a switch that could not be relayed leaves the drag over no window.
pub proof fn unsent_leave_keeps_the_announcement(
    state: RouterState,
    config: RouterConfig,
    words: MessageWords,
    target: u32,
)
    requires
        config.atoms.xdnd_leave != config.atoms.xdnd_enter,
        config.atoms.xdnd_leave != config.atoms.xdnd_position,
        config.atoms.xdnd_position != config.atoms.xdnd_enter,
        state.current_target is Some,
    ensures
        state.settled(config, config.atoms.xdnd_leave, words, false, target, 0) == (RouterState {
            current_target: None,
            ..state
        }),
        state.current_target != Some(target) ==> state.settled(
            config,
            config.atoms.xdnd_position,
            words,
            false,
            target,
            0,
        ) == (RouterState { current_target: None, ..state }),
        state.current_target == Some(target) ==> state.settled(
            config,
            config.atoms.xdnd_position,
            words,
            false,
            target,
            0,
        ) == state,
{
}

/// While an outbound drag is going on, every message of a drag is swallowed: what was
/// announced is forgotten, and only a drop is reported.
pub proof fn outbound_drags_are_swallowed(
    state: RouterState,
    config: RouterConfig,
    message_type: u32,
    words: MessageWords,
    target: u32,
)
    requires
        message_type == config.atoms.xdnd_enter || message_type == config.atoms.xdnd_position
            || message_type == config.atoms.xdnd_leave || message_type == config.atoms.xdnd_drop,
    ensures
        state.messaged(config, message_type, words, true, target) == (RouterState {
            claimed: state.claimed,
            active_enter: None,
            current_target: None,
        }),
        message_type == config.atoms.xdnd_drop ==> state.messaging(
            config,
            message_type,
            words,
            true,
            target,
        ) == seq![RouterAction::Note(RouterNote::SelfDropIgnored { source: words.w0 })],
        message_type != config.atoms.xdnd_drop ==> state.messaging(
            config,
            message_type,
            words,
            true,
            target,
        ).len() == 0,
{
}

/// A router needs an X11 window with an id, and takes that window.
pub proof fn router_needs_a_live_x11_window(handle: WindowHandle, id: u32)
    ensures
        x11_window(handle) is Some ==> handle is Xlib || handle is Xcb,
        x11_window(WindowHandle::Xcb(id)) == (if id == 0 {
            None
        } else {
            Some(id)
        }),
        x11_window(WindowHandle::Xlib(id as u64)) == (if id == 0 {
            None
        } else {
            Some(id)
        }),
        TOPLEVEL_SEARCH_LIMIT == 64,
{
}

/// Failures of the router are told apart by how their lines start, and each line ends
/// with the reason.
pub proof fn router_failures_are_told_apart(
    failure: RouterFailure,
    other: RouterFailure,
    reason: Seq<char>,
)
    ensures
        router_failure_line(failure, reason) == router_failure_line(other, reason) ==> failure
            == other,
        router_failure_line(failure, reason).len() >= reason.len(),
        router_failure_line(failure, reason).skip(
            router_failure_line(failure, reason).len() - reason.len(),
        ) == reason,
{
    reveal_strlit("[dnd-router] install failed: ");
    reveal_strlit("[dnd-router] connection lost: ");
    reveal_strlit("[dnd-router] relay error: ");
    assert("[dnd-router] install failed: "@.len() == 29);
    assert("[dnd-router] connection lost: "@.len() == 30);
    assert("[dnd-router] relay error: "@.len() == 26);
    let line = router_failure_line(failure, reason);
    assert(line.skip(line.len() - reason.len()) =~= reason);
    if line == router_failure_line(other, reason) {
        assert(line.len() == router_failure_line(other, reason).len());
    }
}

} // verus!
