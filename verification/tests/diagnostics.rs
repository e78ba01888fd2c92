use audio_plugin_dnd::backend::{
    drain_backend_events, drain_backend_lifecycle_events, take_drag_terminal, BackendBus,
    ExternalDragLifecyclePhase,
};
use audio_plugin_dnd::diagnostics::{
    atom_line_text, atom_name, aware_line_text, chain_goes_on, chain_line,
    coordinate_map_line, finished_line, handoff_plan, no_target_diagnostics, note_text,
    position_line_text, preview_map_line, property_line, property_text, report_native_end, report_portal, report_worker_started, report_xdnd_outcome,
    started_line, window_diagnostics, window_line_text, xdnd_bridge_diagnostics, xdnd_plan,
    CandidateFacts, NoTargetFacts, NoteTexts, WindowGeometry, XdndOutcome,
};
use audio_plugin_dnd::dnd::{DragSessionReport, DragSessionStats};
use audio_plugin_dnd::handoff::BridgeHandoffDecision;
use audio_plugin_dnd::platform::{DragFailureKind, DragRoute};
use audio_plugin_dnd::target::{BridgeRelease, Probe};
use audio_plugin_dnd::text::{
    ascii_lowercase, chars_of, contains_text, decimal_text, hexadecimal_text, is_switched_off,
    is_switched_on, join_texts, same_text, signed_decimal_text, trim_text, truth_text,
};
use audio_plugin_dnd::xdnd::XdndNote;

fn stats() -> DragSessionStats {
    DragSessionStats {
        selection_requests: 3,
        pre_drop_data_requests: 1,
        post_drop_data_requests: 1,
        drop_target_data_requests: 1,
    }
}

fn texts() -> NoteTexts {
    NoteTexts {
        window: "W".to_string(),
        atom: "A(7)".to_string(),
        native_app: None,
        key_bytes: 12,
    }
}

#[test]
fn values_have_texts() {
    assert_eq!(decimal_text(0), "0");
    assert_eq!(decimal_text(1_234_567_890), "1234567890");
    assert_eq!(signed_decimal_text(-42), "-42");
    assert_eq!(signed_decimal_text(i32::MIN), "-2147483648");
    assert_eq!(signed_decimal_text(7), "7");
    assert_eq!(hexadecimal_text(0), "0");
    assert_eq!(hexadecimal_text(0xdead_beef), "deadbeef");
    assert_eq!(truth_text(true), "true");
    assert_eq!(truth_text(false), "false");
    assert_eq!(chars_of("a\u{e9}"), vec!['a', '\u{e9}']);
    assert_eq!(ascii_lowercase("HyprLand\u{c9}"), "hyprland\u{c9}");
    assert!(contains_text("ubuntu:hyprland", "hyprland"));
    assert!(contains_text("x", ""));
    assert!(!contains_text("hypr", "hyprland"));
    let parts = vec!["a".to_string(), "b".to_string(), "c".to_string()];
    assert_eq!(join_texts(&parts, ", "), "a, b, c");
    assert_eq!(join_texts(&Vec::new(), ", "), "");
    let spaced = " \t\u{a0}a \u{3000}b\u{2003}\r\n";
    assert_eq!(trim_text(spaced), "a \u{3000}b");
    assert_eq!(trim_text(spaced), spaced.trim());
    for code in 0..0x3100 {
        let c = char::from_u32(code).expect("below the surrogates");
        assert_eq!(trim_text(&format!("{c}x{c}")) == "x", c.is_whitespace());
    }
    assert_eq!(trim_text(" \n"), "");
    for on in ["1", "true", "YES", "On"] {
        assert!(is_switched_on(on));
    }
    assert!(!is_switched_on("off") && !is_switched_on(""));
    for off in ["0", "FALSE", "off"] {
        assert!(is_switched_off(off));
    }
    assert!(!is_switched_off("no"));
}

#[test]
fn window_properties_are_shown() {
    assert_eq!(property_text(&b"live\0Ableton\0".to_vec()), Some("live/Ableton".to_string()));
    assert_eq!(property_text(&b"a//\0".to_vec()), Some("a".to_string()));
    assert_eq!(property_text(&vec![0]), Some(String::new()));
    assert_eq!(property_text(&Vec::new()), None);
    assert_eq!(property_text(&vec![b'a', 0xff]), Some("a\u{fffd}".to_string()));
    assert_eq!(property_line("x/"), "x");
    assert_eq!(
        window_diagnostics(0x1f, Some("live"), Some("a \"song\""), Some("old")),
        "0x1f class=\"live\" title=\"a \\\"song\\\"\""
    );
    assert_eq!(
        window_diagnostics(0x1f, None, None, Some("old")),
        "0x1f class=\"?\" title=\"old\""
    );
    assert_eq!(
        window_diagnostics(2, None, None, None),
        "0x2 class=\"?\" title=\"?\""
    );
    assert_eq!(window_line_text(16, "\"a\"", "\"b\""), "0x10 class=\"a\" title=\"b\"");
    assert_eq!(atom_name(7, Some(b"TARGETS".to_vec())), "TARGETS(7)");
    assert_eq!(atom_line_text(7, None), "7");
    assert_eq!(aware_line_text("W".to_string(), true), "W/aware=true");
}

#[test]
fn missing_targets_are_described() {
    assert_eq!(position_line_text(1, -2, 3, 4), "raw=1,-2 mapped=3,4");
    assert!(chain_goes_on(5, 1, 0));
    assert!(!chain_goes_on(1, 1, 0));
    assert!(!chain_goes_on(5, 1, 12));
    assert_eq!(chain_line(&vec!["a".to_string(), "b".to_string()]), "a <- b");
    assert_eq!(
        no_target_diagnostics(NoTargetFacts {
            position: Some("raw=1,2 mapped=1,2".to_string()),
            pointer: Some("P".to_string()),
            active: None,
            ancestry: Some("P <- R".to_string()),
            bridge_candidates: None,
        }),
        "drop released with no XdndAware target under pointer; pos=raw=1,2 mapped=1,2; pointer=P; active=none; ancestry=P <- R; bridge_candidates=unknown"
    );
    assert_eq!(
        no_target_diagnostics(NoTargetFacts {
            position: None,
            pointer: None,
            active: Some("A".to_string()),
            ancestry: None,
            bridge_candidates: Some("B".to_string()),
        }),
        "drop released with no XdndAware target under pointer; pos=unknown; pointer=none; active=A; ancestry=none; bridge_candidates=B"
    );
}

#[test]
fn bridge_candidates_are_listed_from_the_top() {
    let probe = Probe {
        root: 1,
        source: 2,
        origin: Some(3),
    };
    let candidate = |window: u32, aware: bool| CandidateFacts {
        window,
        aware,
        geometry: Some(WindowGeometry {
            x: 1,
            y: -2,
            width: 30,
            height: 40,
        }),
        contains: window == 20,
        shown: format!("W{window}"),
    };
    let children = vec![
        candidate(19, true),
        candidate(20, true),
        candidate(21, false),
        candidate(2, true),
        candidate(3, true),
        CandidateFacts {
            geometry: None,
            ..candidate(22, true)
        },
    ];
    assert_eq!(
        xdnd_bridge_diagnostics(&probe, &Some(children)),
        "W20/geom=1,-2 30x40/contains=true | W19/geom=1,-2 30x40/contains=false"
    );
    assert_eq!(xdnd_bridge_diagnostics(&probe, &Some(Vec::new())), "none");
    assert_eq!(xdnd_bridge_diagnostics(&probe, &None), "query_tree_failed");
    let many: Vec<CandidateFacts> = (30..40).map(|window| candidate(window, true)).collect();
    let line = xdnd_bridge_diagnostics(&probe, &Some(many));
    assert_eq!(line.split(" | ").count(), 4);
    assert!(line.starts_with("W39/"));
}

#[test]
fn notes_of_a_drag_have_texts() {
    let text = |note| note_text(note, texts());
    assert_eq!(
        text(XdndNote::Handoff),
        "handoff: pointer over native Wayland surface; switching to native drag"
    );
    assert_eq!(
        text(XdndNote::Suppressed(BridgeHandoffDecision::SuppressedRealXdndTarget)),
        "handoff suppressed: real X11 Xdnd target"
    );
    assert_eq!(text(XdndNote::Entered(1)), "XDND entered target: W");
    assert_eq!(
        text(XdndNote::Released {
            raw_x: 1,
            raw_y: 2,
            x: 3,
            y: 4
        }),
        "XDND release coordinates: raw=1,2 mapped=3,4"
    );
    let bridged = |release, preview| XdndNote::Bridged {
        release,
        x: 3,
        y: 4,
        preview,
    };
    assert_eq!(
        text(bridged(BridgeRelease::Resolved(1), true)),
        "XDND bridge release resolved at 3,4 (mapped=3,4; preview=active): W"
    );
    assert_eq!(
        text(bridged(BridgeRelease::Reused(1), false)),
        "XDND bridge release reused target under pointer at 3,4 (mapped=3,4; preview=none): W"
    );
    assert_eq!(
        text(bridged(BridgeRelease::Bridge(1), true)),
        "XDND release target: native Wayland target via XWayland bridge at 3,4; target_app=unknown native Wayland app; mapped=3,4; preview=active"
    );
    assert_eq!(text(XdndNote::DropSent(1)), "XDND drop sent: W");
    assert_eq!(
        text(XdndNote::Accepts {
            target: 1,
            flags: 0x1f,
            action: 7
        }),
        "XDND target status: advertised accept: W (flags=0x1f, action=A(7))"
    );
    assert_eq!(
        text(XdndNote::Declines {
            target: 1,
            flags: 2,
            action: 7
        }),
        "XDND target status: no advertised accept yet: W (flags=0x2, action=A(7))"
    );
    assert_eq!(
        text(XdndNote::Requested {
            after_drop: true,
            requestor: 1,
            target: 7
        }),
        "XDND drop payload requested by W as A(7)"
    );
    assert_eq!(
        text(XdndNote::Served {
            portal: true,
            requestor: 1,
            target: 7
        }),
        "XDND served portal file transfer: requestor=W, target=A(7), key 12 bytes"
    );
    assert_eq!(
        text(XdndNote::Served {
            portal: false,
            requestor: 1,
            target: 7
        }),
        "XDND served file data: requestor=W, target=A(7)"
    );
    assert_eq!(started_line(), "Drag started via X11 window");
    assert_eq!(
        finished_line(stats()),
        "XDND target finished drop: total_data_requests=3"
    );
}

#[test]
fn workers_report_their_course() {
    let mut bus = BackendBus::new();
    assert_eq!(xdnd_plan().route, DragRoute::XwaylandToXwayland);
    assert_eq!(handoff_plan().route, DragRoute::XwaylandToWaylandBridge);
    report_worker_started(&mut bus, 7, 0xab);
    assert!(report_xdnd_outcome(&mut bus, 7, Ok(XdndOutcome::HandoffToNative)));
    assert_eq!(drain_backend_lifecycle_events(&mut bus), vec![]);
    report_portal(&mut bus, 7, 2, Ok(("Documents", 36)));
    report_portal(&mut bus, 7, 2, Err("no bus".to_string()));
    assert_eq!(
        drain_backend_events(&mut bus),
        vec![
            format!(
                "[dnd#7] XDND worker started: origin=0xab, route={}",
                xdnd_plan().summary()
            ),
            format!(
                "[dnd#7] Native Wayland worker started after XDND handoff; {}",
                handoff_plan().summary()
            ),
            "[dnd#7] Portal FileTransfer ready via Documents: 2 file(s), key 36 bytes".to_string(),
            "[dnd#7] Portal FileTransfer unavailable: no bus".to_string(),
        ]
    );
}

#[test]
fn every_end_is_routed_to_its_drag() {
    let mut bus = BackendBus::new();
    let counters = "selection_requests=3, pre_drop_data_requests=1, post_drop_data_requests=1, drop_target_data_requests=1";
    let completed = |report| Ok(XdndOutcome::Completed(report));
    assert!(!report_xdnd_outcome(
        &mut bus,
        1,
        completed(DragSessionReport::completed_confirmed(stats(), "target sent XdndFinished")),
    ));
    assert!(!report_xdnd_outcome(
        &mut bus,
        2,
        completed(DragSessionReport::failed(DragFailureKind::Cancelled, stats(), "gone")),
    ));
    assert!(!report_xdnd_outcome(&mut bus, 3, Err("no display".to_string())));
    report_native_end(
        &mut bus,
        4,
        Ok(DragSessionReport::completed_inferred(stats(), "bridge")),
    );
    report_native_end(&mut bus, 5, Err("refused".to_string()));
    assert_eq!(
        drain_backend_events(&mut bus),
        vec![
            format!("[dnd#1] XDND confirmed: Drop completed: target sent XdndFinished; {counters}"),
            format!("[dnd#2] XDND failed: Drag cancelled: gone; {counters}"),
            "[dnd#3] XDND failed: no display".to_string(),
            format!("[dnd#4] Native Wayland drag inferred: Drop likely completed: bridge; {counters}"),
            "[dnd#5] Native Wayland drag failed after handoff: refused".to_string(),
        ]
    );
    assert_eq!(drain_backend_lifecycle_events(&mut bus).len(), 5);
    let end = |bus: &mut BackendBus, id| take_drag_terminal(bus, id);
    assert_eq!(end(&mut bus, 1), Some(ExternalDragLifecyclePhase::Finished));
    assert_eq!(end(&mut bus, 2), Some(ExternalDragLifecyclePhase::Cancelled));
    assert_eq!(end(&mut bus, 3), Some(ExternalDragLifecyclePhase::Failed));
    assert_eq!(end(&mut bus, 4), Some(ExternalDragLifecyclePhase::Finished));
    assert_eq!(end(&mut bus, 5), Some(ExternalDragLifecyclePhase::Failed));
    assert_eq!(end(&mut bus, 5), None);
}

#[test]
fn desktop_maps_are_reported() {
    assert_eq!(coordinate_map_line("0 monitors"), "Coordinate map: 0 monitors");
    assert_eq!(preview_map_line("M"), "Preview desktop map: M");
}

#[test]
fn texts_are_compared_character_by_character() {
    assert!(same_text("", ""));
    assert!(same_text("h\u{e4}", "h\u{e4}"));
    assert!(!same_text("ha", "h\u{e4}"));
    assert!(!same_text("ha", "haa"));
    assert!(!same_text("a", ""));
}
