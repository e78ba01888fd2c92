use audio_plugin_dnd::path::{contains_path, copy_paths, file_name, label_from};
use audio_plugin_dnd::plugin::{
    normalized_export_path, DragExportState, DragPayloadKind, DragPreview, Point, RenderCache,
    SpectralDragPreview, DRAG_FLASH,
};
use audio_plugin_dnd::queue::{
    next_external_drag_id, DragIds, ExternalDragPreview, ExternalDragQueue, MidiChipNote,
};
use std::path::PathBuf;

fn far_enough(pointer: Point<f32>, origin: Point<f32>) -> bool {
    let dx = pointer.x - origin.x;
    let dy = pointer.y - origin.y;
    (dx * dx + dy * dy).sqrt() >= 10.0
}

fn queue_export(
    state: &mut DragExportState<String, f32>,
    queue: &mut ExternalDragQueue<f32>,
    path: &str,
) {
    let mut ids = DragIds::new();
    let path = PathBuf::from(path);
    let _ = state.queue_exported_file(queue, &mut ids, path.clone(), path, false, 0);
}

#[test]
fn armed_drag_ready_is_distance_only() {
    let mut state = DragExportState::<String, f32>::default();
    state.arm_midi(Point::new(10.0, 10.0), "MIDI".to_string(), 0);

    assert!(!state.armed_drag_ready(Point::new(18.0, 10.0), far_enough));
    assert!(state.armed_drag_ready(Point::new(20.0, 10.0), far_enough));
}

#[test]
fn queue_exported_file_uses_external_preview() {
    let mut state = DragExportState::<String, f32>::default();
    state.arm_audio(
        Point::new(0.0, 0.0),
        "Audio selection".to_string(),
        DragPreview::Audio(vec![(-0.5, 0.5)]),
        0,
    );
    let mut queue = ExternalDragQueue::new();
    let mut ids = DragIds::new();
    let path = PathBuf::from("/tmp/audio-plugin-dnd-test.flac");

    let start = state.queue_exported_file(
        &mut queue,
        &mut ids,
        path.clone(),
        path.clone(),
        false,
        0,
    );

    assert_eq!(start.path, path);
    assert!(queue
        .pending()
        .is_some_and(|payload| payload.preview.is_some()));
    assert!(state.flash().is_none());
}

#[test]
fn nothing_is_ready_before_arming_or_after_cancelling() {
    let mut state = DragExportState::<String, f32>::default();
    assert!(!state.armed_drag_ready(Point::new(100.0, 0.0), far_enough));
    state.arm(
        Point::new(0.0, 0.0),
        DragPayloadKind::Other,
        "Preset".to_string(),
        DragPreview::NoPreview,
        7,
    );
    let armed = state.armed().expect("armed");
    assert_eq!((armed.started, armed.kind), (7, DragPayloadKind::Other));
    assert_eq!(armed.label, "Preset");
    state.cancel_armed_drag();
    assert!(state.armed().is_none());
    assert!(!state.armed_drag_ready(Point::new(100.0, 0.0), far_enough));
}

#[test]
fn drags_without_a_platform_preview_flash() {
    let mut state = DragExportState::<String, f32>::default();
    state.arm_midi(Point::new(0.0, 0.0), "MIDI".to_string(), 0);
    let mut queue = ExternalDragQueue::new();
    let mut ids = DragIds::new();
    let path = PathBuf::from("/tmp/take 01.mid");
    let start = state.queue_exported_file(
        &mut queue,
        &mut ids,
        path.clone(),
        PathBuf::from("/private/tmp/take 01.mid"),
        true,
        100,
    );
    assert!(start.reused);
    let flash = state.flash().expect("flash");
    assert_eq!(flash.until, 100 + DRAG_FLASH);
    assert!(flash.reused);
    assert_eq!(flash.kind, DragPayloadKind::Midi);
    assert_eq!(flash.label, "take 01.mid");
    assert_eq!(flash.preview, DragPreview::Midi);
    assert!(state.armed().is_none());
    let payload = queue.take().expect("queued");
    assert_eq!(payload.id, 1);
    assert_eq!(payload.paths, vec![path.clone()]);
    assert!(payload.preview.is_none());
    assert!(queue.take().is_none());
    assert!(state.is_own_export_path(&PathBuf::from("/private/tmp/take 01.mid")));
    assert!(!state.is_own_export_path(&path));
}

#[test]
fn unarmed_exports_are_other_drags() {
    let mut state = DragExportState::<String, f32>::default();
    let mut queue = ExternalDragQueue::new();
    queue_export(&mut state, &mut queue, "/tmp/x.preset");
    assert_eq!(state.flash().map(|flash| flash.kind), Some(DragPayloadKind::Other));
}

#[test]
fn remembered_export_paths_are_own() {
    let mut state = DragExportState::<String, f32>::default();
    for n in 0..10 {
        state.remember_export_path(PathBuf::from(format!("/tmp/{n}.mid")));
        assert!(state.is_own_export_path(&PathBuf::from(format!("/tmp/{n}.mid"))));
    }
    // Eight paths are kept, the oldest ones go.
    assert!(!state.is_own_export_path(&PathBuf::from("/tmp/0.mid")));
    assert!(!state.is_own_export_path(&PathBuf::from("/tmp/1.mid")));
    assert!(state.is_own_export_path(&PathBuf::from("/tmp/2.mid")));
    // A path that is there already changes nothing.
    state.remember_export_path(PathBuf::from("/tmp/2.mid"));
    assert!(state.is_own_export_path(&PathBuf::from("/tmp/3.mid")));
}

#[test]
fn canonical_paths_are_preferred() {
    let path = PathBuf::from("/tmp/a");
    let real = PathBuf::from("/private/tmp/a");
    assert_eq!(normalized_export_path(path.clone(), Some(real.clone())), real);
    assert_eq!(normalized_export_path(path.clone(), None), path);
}

#[test]
fn caches_are_reused_for_the_same_key_while_the_file_exists() {
    let mut state = DragExportState::<String, f32>::default();
    assert!(state.reusable_cache_path(&"a".to_string(), true).is_none());
    state.set_render_cache(RenderCache {
        key: "a".to_string(),
        path: PathBuf::from("/tmp/a.flac"),
    });
    assert_eq!(
        state.reusable_cache_path(&"a".to_string(), true),
        Some(&PathBuf::from("/tmp/a.flac"))
    );
    assert!(state.reusable_cache_path(&"a".to_string(), false).is_none());
    assert!(state.reusable_cache_path(&"b".to_string(), true).is_none());
    assert_eq!(state.render_cache().map(|cache| cache.key.as_str()), Some("a"));
    state.clear_cache();
    assert!(state.render_cache().is_none());
}

#[test]
fn previews_are_converted() {
    let spectral = DragPreview::Spectral(SpectralDragPreview {
        columns: 2,
        rows: 1,
        energy: vec![0.25_f32, 0.75],
        low_hz: 20.0,
        high_hz: 8_000.0,
    });
    assert_eq!(
        spectral.external_preview(),
        Some(ExternalDragPreview::Spectral {
            columns: 2,
            rows: 1,
            energy: vec![0.25, 0.75],
            low_hz: 20.0,
            high_hz: 8_000.0,
        })
    );
    let audio = DragPreview::Audio(vec![(-0.5_f32, 0.5)]);
    assert_eq!(
        audio.external_preview(),
        Some(ExternalDragPreview::Waveform {
            buckets: vec![(-0.5, 0.5)]
        })
    );
    assert_eq!(DragPreview::<f32>::Midi.external_preview(), None);
    assert_eq!(DragPreview::<f32>::NoPreview.external_preview(), None);
}

#[test]
fn queues_hold_one_drag_and_ids_grow() {
    let mut ids = DragIds::new();
    let mut queue = ExternalDragQueue::<f32>::new();
    assert!(queue.pending().is_none());
    queue.drag_files(&mut ids, vec![PathBuf::from("/tmp/1")]);
    let notes = vec![MidiChipNote {
        start: 0.0_f32,
        end: 0.5,
        pitch: 0.5,
    }];
    queue.drag_files_with_preview(
        &mut ids,
        vec![PathBuf::from("/tmp/2")],
        Some(ExternalDragPreview::Midi { notes }),
    );
    let payload = queue.take().expect("queued");
    assert_eq!(payload.id, 2);
    assert_eq!(payload.paths, vec![PathBuf::from("/tmp/2")]);
    assert_eq!(next_external_drag_id(&mut ids), 3);
    assert_eq!(next_external_drag_id(&mut ids), 4);
}

#[test]
fn labels_are_file_names_or_whole_paths() {
    assert_eq!(file_name(&PathBuf::from("/tmp/take 01.flac")), "take 01.flac");
    assert_eq!(file_name(&PathBuf::from("/tmp/dir/")), "dir");
    assert_eq!(file_name(&PathBuf::from("/")), "/");
    assert_eq!(file_name(&PathBuf::from("a/..")), "a/..");
    assert_eq!(label_from(Some("x".to_string()), "/y".to_string()), "x");
    assert_eq!(label_from(None, "/y".to_string()), "/y");
}

#[test]
fn paths_are_copied_and_compared_by_component() {
    let paths = vec![PathBuf::from("/tmp/a"), PathBuf::from("/tmp/b")];
    assert_eq!(copy_paths(&paths), paths);
    assert!(contains_path(&paths, &PathBuf::from("/tmp//a/")));
    assert!(!contains_path(&paths, &PathBuf::from("/tmp/c")));
}
