use audio_plugin_dnd::backend::{
    drain_backend_events, drain_backend_lifecycle_events, BackendBus, ExternalDragLifecycleEvent,
    ExternalDragLifecyclePhase,
};
use audio_plugin_dnd::data_device::{ActiveWaylandDrag, PendingWaylandDrag};
use audio_plugin_dnd::native::{
    drag_line_text, names_hyprland, native_note_text, native_offers, needs_bridge_linger,
    route_enabled, DragEvidence, NativeDragError, NativeDragState, NativeEnding, NativeNote,
    DISPATCH_WAIT, EARLY_REJECT_WINDOW,
    MILLISECOND, POST_DROP_QUIET, SESSION_DEADLINE,
};
use audio_plugin_dnd::payload::{FileDragPayloadData, FileForms};
use audio_plugin_dnd::platform::{DragCompletion, DragFailureKind};
use audio_plugin_dnd::pointer::{primary_down, PointerReleaseProbe};
use audio_plugin_dnd::request::{WaylandDragOffer, WaylandExternalDragRequest};
use std::path::PathBuf;

fn bridge_drop_evidence() -> DragEvidence {
    DragEvidence {
        target_interacted: true,
        send_requests: 1,
        post_drop_send_requests: 1,
        drop_performed: true,
        pointer_released: true,
        ..DragEvidence::new()
    }
}

#[test]
fn hover_data_before_release_is_not_bridge_success() {
    let evidence = DragEvidence {
        target_interacted: true,
        send_requests: 1,
        post_drop_send_requests: 0,
        ..DragEvidence::new()
    };
    let report = evidence.into_report();
    assert!(matches!(report.completion, DragCompletion::Failed(_)));
}

#[test]
fn bridge_linger_needed_for_inferred_bridge_success() {
    assert!(needs_bridge_linger(&bridge_drop_evidence()));
}

#[test]
fn bridge_linger_not_needed_after_dnd_finished() {
    let mut evidence = bridge_drop_evidence();
    evidence.finished = true;
    assert!(!needs_bridge_linger(&evidence));
}

#[test]
fn bridge_linger_not_needed_after_cancel() {
    let mut evidence = bridge_drop_evidence();
    evidence.cancelled = true;
    assert!(!needs_bridge_linger(&evidence));
}

#[test]
fn bridge_linger_not_needed_without_bridge_activity() {
    assert!(!needs_bridge_linger(&DragEvidence::new()));
}

fn offer(mime_type: &str, data: &[u8]) -> WaylandDragOffer {
    WaylandDragOffer::new(mime_type.to_string(), data.to_vec())
}

fn session() -> NativeDragState {
    let request = WaylandExternalDragRequest::new(vec![offer("text/plain", b"/a")], Vec::new());
    let pending = PendingWaylandDrag::from_request(request).expect("offers");
    NativeDragState::new(7, ActiveWaylandDrag::create(9, pending))
}

fn event(phase: ExternalDragLifecyclePhase) -> ExternalDragLifecycleEvent {
    ExternalDragLifecycleEvent::new(7, phase)
}

#[test]
fn the_route_is_taken_on_hyprland_or_by_force() {
    assert!(names_hyprland("Hyprland"));
    assert!(names_hyprland("ubuntu:HYPRLAND"));
    assert!(!names_hyprland("GNOME"));
    assert!(route_enabled(None, true, true, None));
    assert!(route_enabled(None, true, false, Some("Hyprland")));
    assert!(!route_enabled(None, true, false, Some("KDE")));
    assert!(!route_enabled(None, true, false, None));
    assert!(!route_enabled(None, false, true, Some("Hyprland")));
    assert!(route_enabled(Some("yes"), false, false, None));
    assert!(!route_enabled(Some("0"), true, true, Some("Hyprland")));
}

#[test]
fn portal_keys_are_offered_first() {
    let payload = FileDragPayloadData::new(
        vec![PathBuf::from("/a")],
        FileForms {
            uri_list: Vec::new(),
            gnome_copied_files: Vec::new(),
            plain_file_list: Vec::new(),
            offers: vec![offer("text/plain", b"/a")],
        },
    )
    .expect("one file");
    assert_eq!(payload.offer_count(), 1);
    assert_eq!(payload.paths(), &vec![PathBuf::from("/a")]);
    let names = |key| {
        native_offers(key, &payload)
            .iter()
            .map(|offer| (offer.mime_type().to_string(), offer.data().to_vec()))
            .collect::<Vec<_>>()
    };
    let plain = ("text/plain".to_string(), b"/a".to_vec());
    assert_eq!(names(None), vec![plain.clone()]);
    assert_eq!(
        names(Some(b"key".to_vec())),
        vec![
            ("application/vnd.portal.filetransfer".to_string(), b"key".to_vec()),
            ("application/vnd.portal.files".to_string(), b"key".to_vec()),
            plain,
        ]
    );
}

#[test]
fn payloads_need_files() {
    let forms = FileForms {
        uri_list: Vec::new(),
        gnome_copied_files: Vec::new(),
        plain_file_list: Vec::new(),
        offers: Vec::new(),
    };
    assert_eq!(
        FileDragPayloadData::new(Vec::new(), forms).map(|_| ()).err(),
        Some("no files to drag".to_string())
    );
}

#[test]
fn releases_are_seen_after_a_press() {
    assert!(primary_down(0x0100));
    assert!(primary_down(0xffff));
    assert!(!primary_down(0x0200));
    assert!(!primary_down(0));
    let mut probe = PointerReleaseProbe::new();
    assert!(!probe.poll_released(Some(0)));
    assert!(!probe.poll_released(Some(0x0100)));
    assert!(!probe.poll_released(None));
    assert!(probe.poll_released(Some(0)));
    assert!(probe.poll_released(None));
}

#[test]
fn a_session_collects_evidence() {
    let mut bus = BackendBus::new();
    let mut session = session();
    session.accept_mime(&mut bus, 9, Some("text/plain".to_string()), 1);
    session.accept_mime(&mut bus, 9, Some("text/plain".to_string()), 2);
    session.accept_mime(&mut bus, 9, None, 3);
    assert_eq!(
        session.send_request(&mut bus, 9, "text/plain", 4),
        Some(b"/a".to_vec())
    );
    session.note_written(9, "text/plain", true);
    assert_eq!(session.send_request(&mut bus, 8, "text/plain", 5), None);
    session.dnd_dropped(&mut bus, 9, 6);
    assert_eq!(session.send_request(&mut bus, 9, "image/png", 7), None);
    let evidence = session.evidence();
    assert_eq!(evidence.accepted_mime, Some("text/plain".to_string()));
    assert_eq!((evidence.send_requests, evidence.post_drop_send_requests), (3, 1));
    assert_eq!(evidence.last_activity, Some(7));
    let stats = evidence.stats();
    assert_eq!(
        (stats.selection_requests, stats.pre_drop_data_requests, stats.post_drop_data_requests),
        (3, 2, 1)
    );
    assert_eq!(
        drain_backend_events(&mut bus),
        vec![
            "[dnd#7] Native drag target accepted mime text/plain".to_string(),
            "[dnd#7] Native drag data requested as text/plain".to_string(),
            "[dnd#7] Native drag data requested as text/plain".to_string(),
            "[dnd#7] Native drag drop performed".to_string(),
            "[dnd#7] Native drag data requested as image/png".to_string(),
        ]
    );
    assert_eq!(
        drain_backend_lifecycle_events(&mut bus),
        vec![
            event(ExternalDragLifecyclePhase::DataRequested),
            event(ExternalDragLifecyclePhase::DataRequested),
            event(ExternalDragLifecyclePhase::Dropped),
            event(ExternalDragLifecyclePhase::DataRequested),
        ]
    );
    assert!(!session.dnd_finished(8, 8));
    assert!(session.dnd_finished(9, 9));
    assert_eq!(session.teardown(), None);
    assert!(matches!(
        session.conclude(0, 10),
        NativeEnding::Ended { report, linger: false }
            if report.completion == DragCompletion::Confirmed
    ));
    assert_eq!(drag_line_text(7, "x"), "[dnd#7] x");
}

#[test]
fn sessions_end() {
    let quiet = POST_DROP_QUIET + 1;
    let mut evidence = DragEvidence::new();
    assert!(!evidence.session_over(0, SESSION_DEADLINE));
    assert!(evidence.session_over(0, SESSION_DEADLINE + 1));
    evidence.note_dropped(5);
    assert!(!evidence.session_over(0, 5 + POST_DROP_QUIET));
    assert!(evidence.session_over(0, 5 + quiet));
    let mut evidence = DragEvidence::new();
    evidence.note_pointer_released(5);
    assert!(!evidence.session_over(0, 5 + quiet));
    evidence.note_send(6);
    assert!(!evidence.session_over(0, 6 + POST_DROP_QUIET));
    assert!(evidence.session_over(0, 6 + quiet));
    evidence.note_finished(7);
    assert!(evidence.session_over(0, 7));
    let mut session = session();
    let mut probe = PointerReleaseProbe::new();
    assert!(!session.after_dispatch(&mut probe, Some(0x0100), 0, 1));
    assert!(!session.after_dispatch(&mut probe, Some(0), 0, 2));
    assert!(session.evidence().pointer_released);
    assert_eq!(session.evidence().last_activity, Some(2));
    assert!(session.cancelled(9, 3));
    assert!(session.after_dispatch(&mut probe, None, 0, 4));
}

#[test]
fn early_cancels_are_refusals() {
    let mut session = session();
    assert!(!session.cancelled(8, 3 * MILLISECOND));
    match session.conclude(0, 3 * MILLISECOND) {
        NativeEnding::Rejected(error) => assert_eq!(
            error.message(),
            "compositor rejected serial-less native drag: cancelled 3ms after start with no target interaction"
        ),
        NativeEnding::Ended { .. } => panic!("not refused"),
    }
    match session.conclude(0, EARLY_REJECT_WINDOW) {
        NativeEnding::Rejected(_) => panic!("refused"),
        NativeEnding::Ended { report, linger } => {
            assert!(!linger);
            assert_eq!(
                report.completion,
                DragCompletion::Failed(DragFailureKind::Cancelled)
            );
        }
    }
    assert_eq!(session.teardown(), Some(9));
    assert_eq!(
        NativeDragError::Unavailable("no wl_seat".to_string()).message(),
        "native Wayland route unavailable: no wl_seat"
    );
}

#[test]
fn reports_follow_the_evidence() {
    let report = |evidence: DragEvidence| evidence.into_report();
    let finished = DragEvidence {
        finished: true,
        ..DragEvidence::new()
    };
    assert_eq!(report(finished).detail, "target finished the native Wayland drag");
    assert_eq!(
        bridge_drop_evidence().report().detail,
        "drop performed and target requested file data"
    );
    let bridged = DragEvidence {
        drop_performed: false,
        ..bridge_drop_evidence()
    };
    assert_eq!(report(bridged).completion, DragCompletion::Inferred);
    let dropped = DragEvidence {
        drop_performed: true,
        ..DragEvidence::new()
    };
    assert_eq!(
        report(dropped).detail,
        "compositor reported the drop but no data was requested yet"
    );
    let nothing = report(DragEvidence::new());
    assert_eq!(
        nothing.completion,
        DragCompletion::Failed(DragFailureKind::TargetNoData)
    );
    assert_eq!(
        nothing.detail,
        "native drag session ended without a drop or data request"
    );
}

#[test]
fn lingers_end_with_the_drag_or_the_deadline() {
    let mut evidence = bridge_drop_evidence();
    let deadline = 10 * DISPATCH_WAIT;
    assert_eq!(evidence.linger_wait(deadline, 0), Some(DISPATCH_WAIT));
    assert_eq!(evidence.linger_wait(deadline, deadline - 3), Some(3));
    assert_eq!(evidence.linger_wait(deadline, deadline), None);
    assert_eq!(evidence.linger_reason(), "grace_timeout");
    evidence.note_cancelled(1);
    assert_eq!(evidence.linger_wait(deadline, 0), None);
    assert_eq!(evidence.linger_reason(), "cancelled");
    evidence.note_finished(2);
    assert_eq!(evidence.linger_reason(), "dnd_finished");
}

#[test]
fn native_connections_are_reported() {
    assert_eq!(
        native_note_text(&NativeNote::Started),
        "Native Wayland drag started via serial-less start_drag; \
         native targets get wl_data_device, X11 targets get the compositor bridge"
    );
    assert_eq!(
        native_note_text(&NativeNote::LingerStarted),
        "Native Wayland bridge linger started (up to 4000ms)"
    );
    assert_eq!(
        native_note_text(&NativeNote::LingerEnded("cancelled")),
        "Native Wayland bridge linger ending: cancelled"
    );
    assert_eq!(
        native_note_text(&NativeNote::FlushFailed("gone".to_string())),
        "Native Wayland session flush failed: gone"
    );
    assert_eq!(
        native_note_text(&NativeNote::Disconnected),
        "Native Wayland session disconnected"
    );
    assert_eq!(
        NativeDragError::unavailable("connect", "refused").message(),
        "native Wayland route unavailable: connect: refused"
    );
}
