//! Drag-and-drop protocol core for audio plugin editors.
//!
//! The crate holds the part of a plugin drag-out that can be proved: payload
//! and preview bookkeeping, the XDND and Wayland source state machines, the
//! search for a drop target, the inbound drop router, the drag chip geometry
//! and the texts that report all of it. Talking to a display server, reading
//! the clock, the environment and the disk, and floating point arithmetic stay
//! with the host program, which hands plain values in and takes plain values
//! back.

pub mod atoms;
pub mod backend;
pub mod data_device;
pub mod desktop;
pub mod diagnostics;
pub mod dnd;
pub mod foreign;
pub mod handoff;
pub mod hyprland;
pub mod icon;
pub mod json;
pub mod monitors;
pub mod native;
pub mod outbound;
pub mod path;
pub mod payload;
pub mod pixels;
pub mod platform;
pub mod plugin;
pub mod plugin_windows;
pub mod pointer;
pub mod preview_laws;
pub mod preview_render;
pub mod queue;
pub mod request;
pub mod router;
pub mod runtime;
pub mod shell;
pub mod state;
pub mod target;
pub mod target_laws;
pub mod text;
pub mod window;
pub mod xdnd;
pub mod xdnd_drive;
pub mod xdnd_laws;
pub mod xdnd_run;

pub use backend::{
    conclude_file_drag, drain_backend_events, drain_backend_lifecycle_events, emit_backend_event,
    emit_backend_lifecycle_event, has_routed_drag_lifecycle, start_file_drag, take_drag_terminal,
    BackendBus, BackendStart, ExternalDragBackend, ExternalDragError, ExternalDragLifecycleEvent,
    ExternalDragLifecyclePhase, RawWindowBackend,
};
pub use data_device::{ActiveWaylandDrag, PendingWaylandDrag};
pub use foreign::ForeignWaylandParentError;
pub use outbound::is_drag_active;
pub use path::file_name;
pub use payload::{FileDragPayloadData, FileForms};
pub use pixels::{rgba_to_argb8888_premul, rgba_to_bgra};
pub use platform::{
    DragBackendKind, DragBackendPlan, DragCompletion, DragEndpointKind, DragFailureKind, DragRoute,
};
pub use plugin::{
    DragArmed, DragExportState, DragFlash, DragPayloadKind, DragPreview, DragStart, DragStatus,
    Point, RenderCache, SpectralDragPreview,
};
pub use plugin_windows::PluginWindowGuard;
pub use preview_render::{
    render_drag_chip, render_drag_chip_sized, DragChipImage, CHIP_HEIGHT, CHIP_WIDTH,
};
pub use queue::{
    next_external_drag_id, ExternalDragPayload, ExternalDragPreview, ExternalDragQueue,
    MidiChipNote,
};
pub use request::{WaylandDragOffer, WaylandExternalDragError, WaylandExternalDragRequest};
pub use runtime::{WaylandRuntimeError, WaylandRuntimeState};
pub use state::WaylandDragState;
pub use window::{DragWindow, WindowHandle};
