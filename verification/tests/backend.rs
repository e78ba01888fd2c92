use audio_plugin_dnd::backend::{
    conclude_file_drag, drain_backend_events, drain_backend_lifecycle_events, emit_backend_event,
    emit_backend_lifecycle_event, emit_terminal_lifecycle, has_routed_drag_lifecycle,
    start_file_drag, take_drag_terminal, xdnd_origin_window, BackendBus, BackendStart,
    ExternalDragError, ExternalDragLifecycleEvent, ExternalDragLifecyclePhase, RawWindowBackend,
};
use audio_plugin_dnd::dnd::{DragSessionReport, DragSessionStats};
use audio_plugin_dnd::platform::{DragBackendKind, DragEndpointKind, DragFailureKind, DragRoute};
use audio_plugin_dnd::queue::ExternalDragPayload;
use audio_plugin_dnd::window::{DragWindow, WindowHandle};
use std::path::PathBuf;

#[test]
fn infers_xwayland_backend_from_xcb_window() {
    let window = DragWindow::new(WindowHandle::Xcb(42));

    assert_eq!(window.backend_kind(), DragBackendKind::X11Xdnd);
    assert_eq!(window.source_route(), DragRoute::XwaylandToXwayland);
}

#[test]
fn rejects_empty_payload_before_backend_dispatch() {
    let mut bus = BackendBus::new();
    let window = DragWindow::new(WindowHandle::Xcb(42));
    let payload = ExternalDragPayload::<f32> {
        id: 1,
        paths: Vec::new(),
        preview: None,
    };

    let err = start_file_drag(&mut bus, window, &payload, 0).expect_err("empty payload should fail");

    assert_eq!(err, ExternalDragError::EmptyPayload);
    assert!(drain_backend_events(&mut bus).is_empty());
    assert!(drain_backend_lifecycle_events(&mut bus).is_empty());
}

#[test]
fn routed_terminal_survives_competing_bus_drain() {
    let mut bus = BackendBus::new();
    emit_backend_lifecycle_event(
        &mut bus,
        ExternalDragLifecycleEvent::new(11, ExternalDragLifecyclePhase::Finished),
    );
    emit_backend_lifecycle_event(
        &mut bus,
        ExternalDragLifecycleEvent::new(22, ExternalDragLifecyclePhase::Cancelled),
    );

    assert_eq!(
        drain_backend_lifecycle_events(&mut bus),
        vec![
            ExternalDragLifecycleEvent::new(11, ExternalDragLifecyclePhase::Finished),
            ExternalDragLifecycleEvent::new(22, ExternalDragLifecyclePhase::Cancelled),
        ]
    );

    assert_eq!(
        take_drag_terminal(&mut bus, 11),
        Some(ExternalDragLifecyclePhase::Finished)
    );
    assert_eq!(
        take_drag_terminal(&mut bus, 22),
        Some(ExternalDragLifecyclePhase::Cancelled)
    );
    assert_eq!(take_drag_terminal(&mut bus, 11), None);
}

#[test]
fn take_drag_terminal_is_consume_once() {
    let mut bus = BackendBus::new();
    emit_backend_lifecycle_event(
        &mut bus,
        ExternalDragLifecycleEvent::new(5, ExternalDragLifecyclePhase::Failed),
    );

    assert_eq!(
        take_drag_terminal(&mut bus, 5),
        Some(ExternalDragLifecyclePhase::Failed)
    );
    assert_eq!(take_drag_terminal(&mut bus, 5), None);
    assert!(!has_routed_drag_lifecycle(&bus, 5));
}

#[test]
fn lifecycle_bus_drains_typed_events_in_order() {
    let mut bus = BackendBus::new();
    emit_backend_lifecycle_event(
        &mut bus,
        ExternalDragLifecycleEvent::new(7, ExternalDragLifecyclePhase::Started),
    );
    emit_backend_lifecycle_event(
        &mut bus,
        ExternalDragLifecycleEvent::new(7, ExternalDragLifecyclePhase::Finished),
    );

    assert_eq!(
        drain_backend_lifecycle_events(&mut bus),
        vec![
            ExternalDragLifecycleEvent::new(7, ExternalDragLifecyclePhase::Started),
            ExternalDragLifecycleEvent::new(7, ExternalDragLifecyclePhase::Finished),
        ]
    );
    assert!(drain_backend_lifecycle_events(&mut bus).is_empty());
}

#[test]
fn only_ends_and_lingering_are_routed() {
    let mut bus = BackendBus::new();
    for phase in [
        ExternalDragLifecyclePhase::Started,
        ExternalDragLifecyclePhase::DataRequested,
        ExternalDragLifecyclePhase::Dropped,
    ] {
        assert!(!phase.is_terminal());
        emit_backend_lifecycle_event(&mut bus, ExternalDragLifecycleEvent::new(3, phase));
        assert!(!has_routed_drag_lifecycle(&bus, 3));
        assert_eq!(take_drag_terminal(&mut bus, 3), None);
    }
    assert!(!ExternalDragLifecyclePhase::Lingering.is_terminal());
    emit_backend_lifecycle_event(
        &mut bus,
        ExternalDragLifecycleEvent::new(3, ExternalDragLifecyclePhase::Lingering),
    );
    assert!(has_routed_drag_lifecycle(&bus, 3));
    emit_backend_lifecycle_event(
        &mut bus,
        ExternalDragLifecycleEvent::new(3, ExternalDragLifecyclePhase::Finished),
    );
    assert_eq!(
        take_drag_terminal(&mut bus, 3),
        Some(ExternalDragLifecyclePhase::Finished)
    );
}

#[test]
fn end_of_a_drag_is_not_stolen_by_other_drags() {
    let mut bus = BackendBus::new();
    emit_backend_lifecycle_event(
        &mut bus,
        ExternalDragLifecycleEvent::new(1, ExternalDragLifecyclePhase::Cancelled),
    );
    emit_backend_lifecycle_event(
        &mut bus,
        ExternalDragLifecycleEvent::new(2, ExternalDragLifecyclePhase::Failed),
    );
    assert_eq!(
        take_drag_terminal(&mut bus, 2),
        Some(ExternalDragLifecyclePhase::Failed)
    );
    assert_eq!(
        take_drag_terminal(&mut bus, 1),
        Some(ExternalDragLifecyclePhase::Cancelled)
    );
}

#[test]
fn start_announces_the_request_and_conclude_reports_the_launch() {
    let mut bus = BackendBus::new();
    let window = DragWindow::new(WindowHandle::Xlib(0x2a));
    let payload = ExternalDragPayload::<f32> {
        id: 9,
        paths: vec![PathBuf::from("/tmp/a.wav"), PathBuf::from("/tmp/b.wav")],
        preview: None,
    };
    let start = RawWindowBackend
        .start_file_drag(&mut bus, window, &payload, 11)
        .expect("two files");
    assert_eq!(
        start,
        BackendStart {
            drag_id: 9,
            backend: DragBackendKind::X11Xdnd,
            route: DragRoute::XwaylandToXwayland,
            file_count: 2,
        }
    );
    assert_eq!(
        drain_backend_events(&mut bus),
        vec![format!(
            "[dnd#9] backend request: backend=x11_xdnd, route={}, files=2, offers=11",
            DragRoute::XwaylandToXwayland.summary()
        )]
    );

    assert_eq!(conclude_file_drag(&mut bus, start, Ok(())), Ok(start));
    assert!(!has_routed_drag_lifecycle(&bus, 9));
    let failed = ExternalDragError::StartFailed("no thread".to_string());
    let err = conclude_file_drag(&mut bus, start, Err(failed)).expect_err("launch failed");
    assert_eq!(err.message(), "no thread");
    assert_eq!(
        drain_backend_lifecycle_events(&mut bus),
        vec![
            ExternalDragLifecycleEvent::new(9, ExternalDragLifecyclePhase::Started),
            ExternalDragLifecycleEvent::new(9, ExternalDragLifecyclePhase::Failed),
        ]
    );
    assert_eq!(
        take_drag_terminal(&mut bus, 9),
        Some(ExternalDragLifecyclePhase::Failed)
    );
}

#[test]
fn reports_end_a_drag_in_the_matching_phase() {
    let stats = DragSessionStats {
        selection_requests: 0,
        pre_drop_data_requests: 0,
        post_drop_data_requests: 0,
        drop_target_data_requests: 0,
    };
    let mut bus = BackendBus::new();
    emit_terminal_lifecycle(&mut bus, 1, &DragSessionReport::completed_confirmed(stats, "a"));
    emit_terminal_lifecycle(&mut bus, 2, &DragSessionReport::completed_inferred(stats, "b"));
    emit_terminal_lifecycle(
        &mut bus,
        3,
        &DragSessionReport::failed(DragFailureKind::Cancelled, stats, "c"),
    );
    emit_terminal_lifecycle(
        &mut bus,
        4,
        &DragSessionReport::failed(DragFailureKind::TargetNoData, stats, "d"),
    );
    assert_eq!(
        take_drag_terminal(&mut bus, 1),
        Some(ExternalDragLifecyclePhase::Finished)
    );
    assert_eq!(
        take_drag_terminal(&mut bus, 2),
        Some(ExternalDragLifecyclePhase::Finished)
    );
    assert_eq!(
        take_drag_terminal(&mut bus, 3),
        Some(ExternalDragLifecyclePhase::Cancelled)
    );
    assert_eq!(
        take_drag_terminal(&mut bus, 4),
        Some(ExternalDragLifecyclePhase::Failed)
    );
}

#[test]
fn diagnostics_are_drained_in_order() {
    let mut bus = BackendBus::new();
    emit_backend_event(&mut bus, "one".to_string());
    emit_backend_event(&mut bus, "two".to_string());
    assert_eq!(drain_backend_events(&mut bus), vec!["one", "two"]);
    assert!(drain_backend_events(&mut bus).is_empty());
}

#[test]
fn errors_have_their_texts() {
    assert_eq!(ExternalDragError::EmptyPayload.message(), "no files to drag");
    let unsupported = ExternalDragError::UnsupportedBackend {
        backend: DragBackendKind::MacosAppKit,
        window: "AppKit(..)".to_string(),
    };
    assert_eq!(
        unsupported.message(),
        format!(
            "external file drag is not implemented for {} from AppKit(..)",
            DragBackendKind::MacosAppKit.summary()
        )
    );
    assert_eq!(ExternalDragError::MissingWindowHandle("gone").message(), "gone");
    assert_eq!(
        ExternalDragError::BackendUnavailable("later".to_string()).message(),
        "later"
    );
    assert_eq!(
        ExternalDragError::from("boom".to_string()),
        ExternalDragError::StartFailed("boom".to_string())
    );
}

#[test]
fn origin_window_needs_a_live_x11_window() {
    let x = |handle| xdnd_origin_window(&DragWindow::new(handle), "shown");
    assert_eq!(x(WindowHandle::Xlib(0x1_0000_0007)), Ok(7));
    assert_eq!(x(WindowHandle::Xcb(8)), Ok(8));
    let missing = ExternalDragError::MissingWindowHandle(
        "window does not have a valid X11/XWayland handle",
    );
    assert_eq!(x(WindowHandle::Xlib(0)), Err(missing));
    assert!(matches!(
        x(WindowHandle::Xcb(0)),
        Err(ExternalDragError::MissingWindowHandle(_))
    ));
    assert_eq!(
        x(WindowHandle::Wayland(true)),
        Err(ExternalDragError::BackendUnavailable(
            "native Wayland drag requires a live WaylandRuntime with the initiating pointer serial"
                .to_string()
        ))
    );
    assert_eq!(
        x(WindowHandle::Win32(true)),
        Err(ExternalDragError::UnsupportedBackend {
            backend: DragBackendKind::WindowsOle,
            window: "shown".to_string(),
        })
    );
}

#[test]
fn windows_have_endpoints_backends_and_routes() {
    let cases = [
        (
            WindowHandle::Xlib(1),
            DragEndpointKind::XwaylandWindow,
            DragBackendKind::X11Xdnd,
            DragRoute::XwaylandToXwayland,
        ),
        (
            WindowHandle::Wayland(true),
            DragEndpointKind::WaylandSurface,
            DragBackendKind::WaylandDataDevice,
            DragRoute::WaylandToWayland,
        ),
        (
            WindowHandle::AppKit(true),
            DragEndpointKind::Unknown,
            DragBackendKind::MacosAppKit,
            DragRoute::Unsupported,
        ),
        (
            WindowHandle::WinRt,
            DragEndpointKind::Unknown,
            DragBackendKind::WindowsOle,
            DragRoute::Unsupported,
        ),
        (
            WindowHandle::Other,
            DragEndpointKind::Unknown,
            DragBackendKind::Unsupported,
            DragRoute::Unsupported,
        ),
    ];
    for (handle, endpoint, backend, route) in cases {
        let window = DragWindow::new(handle);
        assert_eq!(window.window(), handle);
        assert_eq!(window.endpoint(), endpoint);
        assert_eq!(window.backend_kind(), backend);
        assert_eq!(window.source_route(), route);
    }
}
