use audio_plugin_dnd::data_device::{ActiveWaylandDrag, PendingWaylandDrag};
use audio_plugin_dnd::foreign::{check_parent_handles, DisplayHandle, ForeignWaylandParentError};
use audio_plugin_dnd::request::{
    copy_bytes, copy_offers, WaylandDragOffer, WaylandExternalDragError, WaylandExternalDragRequest,
};
use audio_plugin_dnd::runtime::{
    PointerEvent, PointerEventKind, WaylandRuntimeError, WaylandRuntimeState, BTN_LEFT,
};
use audio_plugin_dnd::state::{slice_bytes, WaylandDragState};
use std::path::PathBuf;

#[test]
fn pending_wayland_drag_rejects_empty_offer_set() {
    let request = WaylandExternalDragRequest::new(Vec::new(), Vec::new());

    let err = PendingWaylandDrag::from_request(request)
        .expect_err("empty Wayland offer sets must be rejected");

    assert_eq!(err, WaylandExternalDragError::EmptyOfferSet);
}

fn offer(mime_type: &str, data: &[u8]) -> WaylandDragOffer {
    WaylandDragOffer::new(mime_type.to_string(), data.to_vec())
}

fn request() -> WaylandExternalDragRequest {
    WaylandExternalDragRequest::new(
        vec![offer("text/uri-list", b"file:///a"), offer("text/plain", b"/a")],
        vec![PathBuf::from("/a")],
    )
}

fn ready_state() -> WaylandDragState {
    let mut state = WaylandDragState::new();
    state.note_surface_available(true);
    state.note_seat_available(true);
    state.note_data_device_available(true);
    state.note_pointer_button_serial(42);
    state
}

fn dragging(source: u32) -> WaylandDragState {
    let mut state = ready_state();
    let prepared = state.prepare_drag(request()).expect("ready");
    assert_eq!(prepared.serial, 42);
    assert_eq!(state.start_drag(source, prepared), None);
    state
}

#[test]
fn requests_keep_their_offers() {
    let request = request();
    assert_eq!(request.offers().len(), 2);
    assert_eq!(request.offers()[1].mime_type(), "text/plain");
    assert_eq!(request.offers()[1].data(), b"/a");
    assert_eq!(request.fallback_file_paths(), &vec![PathBuf::from("/a")]);
    let copies = copy_offers(request.offers());
    assert_eq!(copies[0].mime_type(), "text/uri-list");
    assert_eq!(copies[0].duplicate().data(), b"file:///a");
    assert_eq!(copy_bytes(&vec![1, 2]), vec![1, 2]);
}

#[test]
fn errors_of_requests_have_texts() {
    let texts = [
        WaylandExternalDragError::UnsupportedBackend,
        WaylandExternalDragError::MissingSurface,
        WaylandExternalDragError::MissingSeat,
        WaylandExternalDragError::MissingPointerButtonSerial,
        WaylandExternalDragError::EmptyOfferSet,
    ]
    .map(|error| error.message());
    for (i, text) in texts.iter().enumerate() {
        assert!(!text.is_empty());
        assert!(!texts[..i].contains(text));
    }
}

#[test]
fn pending_drags_serve_what_was_offered() {
    let mut pending = PendingWaylandDrag::from_request(request()).expect("offers");
    assert_eq!(pending.mime_types(), vec!["text/uri-list", "text/plain"]);
    assert_eq!(pending.mime_type_strings().len(), 2);
    assert_eq!(pending.payload_for_mime("text/plain"), Some(&b"/a"[..]));
    assert_eq!(pending.payload_for_mime("image/png"), None);
    assert!(!pending.is_finished());
    pending.note_accepted_mime(Some("text/plain".to_string()));
    pending.note_written("text/plain", true);
    pending.note_send("text/plain".to_string());
    pending.note_drop_performed();
    pending.note_finished();
    assert!(pending.is_finished());
    let active = ActiveWaylandDrag::create(9, pending);
    assert!(active.matches_source(9) && !active.matches_source(8));
    assert_eq!(active.source(), 9);
    assert!(active.is_finished());
}

#[test]
fn drags_need_surface_seat_device_and_serial() {
    let failure = |state: &WaylandDragState| state.prepare_drag(request()).map(|_| ()).err();
    let mut state = WaylandDragState::new();
    assert_eq!(failure(&state), Some(WaylandExternalDragError::MissingSurface));
    state.note_surface_available(true);
    assert_eq!(failure(&state), Some(WaylandExternalDragError::MissingSeat));
    state.note_seat_available(true);
    assert_eq!(failure(&state), Some(WaylandExternalDragError::MissingSeat));
    state.note_data_device_available(true);
    assert_eq!(
        failure(&state),
        Some(WaylandExternalDragError::MissingPointerButtonSerial)
    );
    assert!(!state.can_start_drag());
    state.note_pointer_button_serial(42);
    assert!(state.can_start_drag());
    assert_eq!(failure(&state), None);
    assert_eq!(
        state
            .prepare_drag(WaylandExternalDragRequest::new(Vec::new(), Vec::new()))
            .map(|_| ())
            .err(),
        Some(WaylandExternalDragError::EmptyOfferSet)
    );
    state.clear_pointer_button_serial();
    assert!(!state.can_start_drag());
}

#[test]
fn a_drag_is_served_until_it_ends() {
    let mut state = dragging(9);
    assert!(!state.can_start_drag());
    assert_eq!(state.payload_for_send(9, "text/plain"), Some(b"/a".to_vec()));
    assert_eq!(state.payload_for_send(8, "text/plain"), None);
    assert_eq!(state.payload_for_send(9, "image/png"), None);
    state.handle_accept_mime(9, Some("text/plain".to_string()));
    state.handle_send_request(9, "text/plain", true);
    state.handle_drop_performed(9);
    assert!(!state.handle_finished(8));
    assert!(!state.can_start_drag());
    assert!(state.handle_finished(9));
    assert!(state.can_start_drag());
    assert!(!state.handle_cancelled(9));
    let mut state = dragging(9);
    assert!(!state.handle_cancelled(8));
    assert!(state.handle_cancelled(9));
    assert!(state.can_start_drag());
    // A second drag replaces the first.
    let mut state = dragging(9);
    let prepared = state.prepare_drag(request()).expect("ready");
    assert_eq!(state.start_drag(10, prepared), Some(9));
    assert_eq!(slice_bytes(&[1, 2]), vec![1, 2]);
}

#[test]
fn losing_a_part_gives_the_source_back() {
    assert_eq!(dragging(9).note_surface_available(false), Some(9));
    assert_eq!(dragging(9).note_seat_available(false), Some(9));
    assert_eq!(dragging(9).note_data_device_available(false), Some(9));
    assert_eq!(dragging(9).note_seat_available(true), None);
    let mut state = dragging(9);
    state.note_data_device_available(false);
    state.note_data_device_available(true);
    assert!(state.can_start_drag());
    state.note_seat_available(false);
    state.note_seat_available(true);
    assert!(!state.can_start_drag());
}

#[test]
fn runtimes_follow_the_seat_and_the_pointer() {
    let mut state = WaylandRuntimeState::new(5);
    assert_eq!(state.sync_data_device_for_active_seat(None), (None, None));
    assert!(matches!(
        state.prepare_external_drag(request()),
        Err(WaylandExternalDragError::MissingSeat)
    ));
    state.new_seat(70);
    state.new_seat(71);
    assert_eq!(state.sync_data_device_for_active_seat(Some(72)), (Some(70), None));
    assert_eq!(state.sync_data_device_for_active_seat(Some(72)), (None, None));
    assert!(state.wants_pointer());
    state.new_pointer_capability(true);
    assert!(!state.wants_pointer());
    let event = |surface, kind| PointerEvent { surface, kind };
    let press = PointerEventKind::Press {
        button: BTN_LEFT,
        serial: 42,
    };
    state.pointer_frame(&vec![event(6, press)]);
    assert!(!state.can_start_external_drag());
    state.pointer_frame(&vec![event(5, PointerEventKind::Other), event(5, press)]);
    assert!(state.can_start_external_drag());
    let prepared = state.prepare_external_drag(request()).expect("ready");
    assert_eq!(prepared.serial, 42);
    assert_eq!(state.drag_state_mut().start_drag(9, prepared), None);
    assert!(!state.drag_state().can_start_drag());
    assert_eq!(state.remove_seat(71), None);
    assert_eq!(state.remove_seat(70), Some(9));
    assert!(!state.can_start_external_drag());
    // Another button, and a release.
    let mut state = WaylandRuntimeState::new(5);
    state.sync_data_device_for_active_seat(Some(70));
    let right = PointerEventKind::Press {
        button: BTN_LEFT + 1,
        serial: 41,
    };
    state.pointer_frame(&vec![event(5, right)]);
    assert!(!state.can_start_external_drag());
    state.pointer_frame(&vec![event(5, press), event(5, PointerEventKind::Release { button: BTN_LEFT })]);
    assert!(!state.can_start_external_drag());
    state.pointer_frame(&vec![event(5, press)]);
    state.remove_pointer_capability();
    assert!(!state.can_start_external_drag());
    assert_eq!(
        WaylandRuntimeError::Dispatch("x".to_string()).message(),
        "Wayland event dispatch failed: x"
    );
    assert_eq!(
        WaylandRuntimeError::RegistryInit("x".to_string()).message(),
        "Wayland registry init failed: x"
    );
    assert_eq!(
        WaylandRuntimeError::MissingDataDeviceManager("x".to_string()).message(),
        "Wayland data-device manager is unavailable: x"
    );
}

#[test]
fn parent_handles_are_checked() {
    let check = |display, window| {
        check_parent_handles(display, window, "D", "W").map_err(|error| error.message())
    };
    assert_eq!(check(DisplayHandle::Wayland(true), Some(true)), Ok(()));
    assert_eq!(
        check(DisplayHandle::Other, None),
        Err("unsupported parent display handle: D".to_string())
    );
    assert_eq!(
        check(DisplayHandle::Wayland(false), None),
        Err("unsupported parent window handle: W".to_string())
    );
    assert_eq!(
        check(DisplayHandle::Wayland(false), Some(false)),
        Err("Wayland parent is missing wl_display".to_string())
    );
    assert_eq!(
        check(DisplayHandle::Wayland(true), Some(false)),
        Err("Wayland parent is missing wl_surface".to_string())
    );
    assert_eq!(
        ForeignWaylandParentError::InvalidDisplay.message(),
        "Wayland parent wl_display is invalid"
    );
    assert_eq!(
        ForeignWaylandParentError::InvalidSurface.message(),
        "Wayland parent wl_surface is invalid"
    );
}
