use audio_plugin_dnd::atoms::{router_atom_names, RouterAtoms};
use audio_plugin_dnd::backend::ExternalDragError;
use audio_plugin_dnd::router::{
    claim_check_due, claim_proxy_if_available, removes_proxy, router_editor_window,
    router_failure_text, router_note_text, unpack_position, ClaimStep, MessageWords, Relayed,
    ResolveStep, RouterAction, RouterConfig, RouterEvent, RouterFailure, RouterNote, RouterState,
    RouterTask, ToplevelSearch, CLAIM_INTERVAL,
};
use audio_plugin_dnd::window::{DragWindow, WindowHandle};
use audio_plugin_dnd::xdnd::pack_position;

const BRIDGE: u32 = 77;

fn config() -> RouterConfig {
    let interned: Vec<u32> = (0..router_atom_names().len() as u32).map(|i| 100 + i).collect();
    RouterConfig {
        root: 1,
        router_window: 0x20,
        toplevel: 0x30,
        atoms: RouterAtoms::new(&interned).expect("as many atoms as names"),
    }
}

fn words(w1: u32, w2: u32) -> MessageWords {
    MessageWords {
        w0: BRIDGE,
        w1,
        w2,
        w3: 3,
        w4: 4,
    }
}

fn forward(target: u32, message_type: u32, words: MessageWords) -> RouterAction {
    RouterAction::Forward(Relayed {
        target,
        message_type,
        words,
    })
}

#[test]
fn router_atoms_follow_their_names() {
    let names = router_atom_names();
    let atoms = config().atoms;
    let at = |name: &str| 100 + names.iter().position(|n| *n == name).expect("name") as u32;
    assert_eq!(atoms.xdnd_proxy, at("XdndProxy"));
    assert_eq!(atoms.marker, at("AUDIO_PLUGIN_DND_ROUTER"));
    assert!(RouterAtoms::new(&vec![]).is_none());
}

#[test]
fn routers_need_an_x11_editor_under_wayland() {
    let unavailable = |text: &str| ExternalDragError::BackendUnavailable(text.to_string());
    let editor = DragWindow::new(WindowHandle::Xcb(5));
    assert_eq!(router_editor_window(&editor, "", true, None), Ok(5));
    assert_eq!(router_editor_window(&editor, "", true, Some("1")), Ok(5));
    assert_eq!(
        router_editor_window(&editor, "", true, Some("Off")),
        Err(unavailable("drop router disabled by AUDIO_PLUGIN_DND_ROUTER"))
    );
    assert_eq!(
        router_editor_window(&editor, "", false, None),
        Err(unavailable(
            "drop router is only needed under XWayland (no WAYLAND_DISPLAY)"
        ))
    );
    let surface = DragWindow::new(WindowHandle::Wayland(true));
    assert_eq!(
        router_editor_window(&surface, "Wayland(..)", true, None),
        Err(unavailable(
            "drop router requires an X11/XWayland editor window, got Wayland(..)"
        ))
    );
    let none = DragWindow::new(WindowHandle::Xlib(0));
    assert!(router_editor_window(&none, "", true, None).is_err());
}

#[test]
fn the_toplevel_is_the_child_of_the_root() {
    let mut search = ToplevelSearch::new(7);
    for parent in [8, 9, 1] {
        search = search.toplevel_of(1, parent);
    }
    assert_eq!(search, ToplevelSearch::Found(9));
    // An orphan is its own toplevel, and a long chain ends.
    assert_eq!(ToplevelSearch::new(7).toplevel_of(1, 0), ToplevelSearch::Found(7));
    let mut search = ToplevelSearch::new(100);
    let mut steps = 0;
    while !matches!(search, ToplevelSearch::Found(_)) {
        search = search.toplevel_of(1, 101 + steps);
        steps += 1;
    }
    assert_eq!((search, steps), (ToplevelSearch::Found(164), 64));
}

#[test]
fn claims_respect_other_routers() {
    assert_eq!(claim_proxy_if_available(0x20, Some(0x20), true, false), ClaimStep::Held);
    assert_eq!(claim_proxy_if_available(0x20, Some(0x99), true, false), ClaimStep::StandBy);
    assert_eq!(claim_proxy_if_available(0x20, Some(0x99), false, false), ClaimStep::Claim);
    assert_eq!(claim_proxy_if_available(0x20, None, false, false), ClaimStep::Claim);
    assert_eq!(claim_proxy_if_available(0x20, None, false, true), ClaimStep::Paused);
    let mut state = RouterState::new();
    assert!(!state.note_claim(ClaimStep::Claim, false));
    assert!(!state.claimed);
    assert!(state.note_claim(ClaimStep::Claim, true));
    assert!(state.claimed);
    assert!(!state.note_claim(ClaimStep::Claim, true));
    assert!(!state.note_claim(ClaimStep::StandBy, false));
    assert!(!state.claimed);
    assert!(!state.note_claim(ClaimStep::Held, false));
    assert!(state.claimed);
    assert!(claim_check_due(5, 5 + CLAIM_INTERVAL));
    assert!(!claim_check_due(5, 4 + CLAIM_INTERVAL));
    assert!(removes_proxy(0x20, Some(0x20)));
    assert!(!removes_proxy(0x20, Some(0x21)));
    assert!(!removes_proxy(0x20, None));
}

#[test]
fn positions_come_back_from_messages() {
    for (x, y) in [(0, 0), (-1, 5), (300, -300), (i16::MIN, i16::MAX)] {
        assert_eq!(unpack_position(pack_position(x, y)), (x, y));
    }
    assert_eq!(unpack_position(0xffff_0002), (-1, 2));
}

#[test]
fn targets_are_the_deepest_aware_windows() {
    let config = config();
    assert_eq!(config.resolve_target(), ResolveStep::AskChild(1));
    assert_eq!(config.resolve_child(1, 0x30), ResolveStep::AskChild(0x30));
    assert_eq!(config.resolve_child(0x30, 0x31), ResolveStep::AskChild(0x31));
    assert_eq!(config.resolve_child(0x31, 0), ResolveStep::AskAware(0x31));
    assert_eq!(config.resolve_child(0x31, 0x20), ResolveStep::AskAware(0x31));
    assert_eq!(config.resolve_aware(0x31, true), ResolveStep::Target(0x31));
    assert_eq!(config.resolve_aware(0x31, false), ResolveStep::AskParent(0x31));
    assert_eq!(config.resolve_parent(0x30), ResolveStep::AskAware(0x30));
    assert_eq!(config.resolve_parent(0), ResolveStep::Target(0x30));
    assert_eq!(config.resolve_aware(1, false), ResolveStep::Target(0x30));
}

fn relay(
    state: &mut RouterState,
    message_type: u32,
    words: MessageWords,
    outbound: bool,
    target: u32,
) -> Vec<RouterAction> {
    let config = config();
    let actions = state.handle_client_message(&config, message_type, words, outbound, target);
    state.settle(&config, message_type, words, outbound, target, actions.len());
    actions
}

#[test]
fn messages_are_relayed_with_proper_pairs() {
    let config = config();
    let a = config.atoms;
    let mut state = RouterState::new();
    let enter = words(0x0500_0001, 9);
    assert_eq!(relay(&mut state, a.xdnd_enter, enter, false, 0), vec![]);
    let position = words(0, pack_position(5, 6));
    assert!(config.needs_target(a.xdnd_position, false));
    assert!(!config.needs_target(a.xdnd_position, true));
    assert!(!config.needs_target(a.xdnd_enter, false));
    assert_eq!(
        relay(&mut state, a.xdnd_position, position, false, 0x31),
        vec![
            forward(0x31, a.xdnd_enter, enter),
            forward(0x31, a.xdnd_position, position),
        ]
    );
    assert_eq!(
        relay(&mut state, a.xdnd_position, position, false, 0x30),
        vec![
            forward(
                0x31,
                a.xdnd_leave,
                MessageWords {
                    w0: BRIDGE,
                    w1: 0,
                    w2: 0,
                    w3: 0,
                    w4: 0
                }
            ),
            forward(0x30, a.xdnd_enter, enter),
            forward(0x30, a.xdnd_position, position),
        ]
    );
    let drop = words(0, 55);
    assert_eq!(
        relay(&mut state, a.xdnd_drop, drop, false, 0),
        vec![
            RouterAction::Note(RouterNote::DropRelayed {
                target: 0x30,
                source: BRIDGE
            }),
            forward(0x30, a.xdnd_drop, drop),
        ]
    );
    assert_eq!((state.active_enter, state.current_target), (None, None));
    state.current_target = Some(0x31);
    let leave = words(0, 0);
    assert_eq!(
        relay(&mut state, a.xdnd_leave, leave, false, 0),
        vec![forward(0x31, a.xdnd_leave, leave)]
    );
    assert_eq!(state.current_target, None);
    assert_eq!(relay(&mut state, a.xdnd_leave, leave, false, 0), vec![]);
    assert_eq!(relay(&mut state, 999, leave, false, 0), vec![]);
}

#[test]
fn outbound_drags_are_left_alone() {
    let config = config();
    let a = config.atoms;
    let mut state = RouterState::new();
    relay(&mut state, a.xdnd_enter, words(0, 0), false, 0);
    state.current_target = Some(0x31);
    assert_eq!(
        relay(&mut state, a.xdnd_position, words(0, 0), true, 0),
        vec![]
    );
    assert_eq!((state.active_enter, state.current_target), (None, None));
    assert_eq!(
        relay(&mut state, a.xdnd_drop, words(0, 0), true, 0),
        vec![RouterAction::Note(RouterNote::SelfDropIgnored { source: BRIDGE })]
    );
}

#[test]
fn notes_have_texts() {
    let config = config();
    let text = |note| router_note_text(&config, note);
    assert_eq!(
        text(RouterNote::Installed { claimed: true }),
        "[dnd-router] installed: router=0x20, toplevel=0x30, claimed=true"
    );
    assert_eq!(
        text(RouterNote::SelfDropIgnored { source: 0xab }),
        "[dnd-router] ignored outbound self-drop from source 0xab"
    );
    assert_eq!(
        text(RouterNote::DropRelayed {
            target: 0x31,
            source: 0xab
        }),
        "[dnd-router] drop relayed to 0x31 (source 0xab)"
    );
    assert_eq!(
        text(RouterNote::Claimed),
        "[dnd-router] claimed XdndProxy on toplevel 0x30"
    );
    assert_eq!(
        text(RouterNote::HostGone),
        "[dnd-router] host toplevel destroyed; stopping"
    );
    assert_eq!(
        text(RouterNote::Uninstalled),
        "[dnd-router] uninstalled from toplevel 0x30"
    );
}

#[test]
fn events_of_the_server_lead_to_tasks() {
    let config = config();
    let task = |event, now| config.task(event, 10, now);
    assert_eq!(task(RouterEvent::Message { window: 0x20 }, 11), RouterTask::Relay);
    assert_eq!(task(RouterEvent::Message { window: 0x21 }, 11), RouterTask::Ignore);
    assert_eq!(task(RouterEvent::Other, 11), RouterTask::Ignore);
    assert_eq!(task(RouterEvent::Idle, 11), RouterTask::Sleep);
    assert_eq!(
        task(RouterEvent::Idle, 10 + CLAIM_INTERVAL),
        RouterTask::LookAfterClaim
    );
}

#[test]
fn router_failures_are_reported() {
    assert_eq!(
        router_failure_text(RouterFailure::Install, "no root"),
        "[dnd-router] install failed: no root"
    );
    assert_eq!(
        router_failure_text(RouterFailure::Connection, "eof"),
        "[dnd-router] connection lost: eof"
    );
    assert_eq!(
        router_failure_text(RouterFailure::Relay, "x"),
        "[dnd-router] relay error: x"
    );
}

#[test]
fn interrupted_relays_keep_what_was_not_sent() {
    let config = config();
    let a = config.atoms;
    let (enter, here) = (words(0x0500_0001, 9), words(0, 0));
    let hovering = RouterState {
        active_enter: Some(enter),
        current_target: Some(0x31),
        ..RouterState::new()
    };
    let after = |message_type: u32, target: u32, done: usize| {
        let mut state = hovering;
        state.settle(&config, message_type, here, false, target, done);
        (state.active_enter, state.current_target)
    };
    assert_eq!(after(a.xdnd_leave, 0, 0), (Some(enter), None));
    assert_eq!(after(a.xdnd_leave, 0, 1), (None, None));
    assert_eq!(after(a.xdnd_drop, 0, 1), (Some(enter), Some(0x31)));
    assert_eq!(after(a.xdnd_drop, 0, 2), (None, None));
    assert_eq!(after(a.xdnd_position, 0x30, 0), (Some(enter), None));
    assert_eq!(after(a.xdnd_position, 0x30, 1), (Some(enter), None));
    assert_eq!(after(a.xdnd_position, 0x30, 2), (Some(enter), Some(0x30)));
    assert_eq!(after(a.xdnd_position, 0x31, 0), (Some(enter), Some(0x31)));
}
