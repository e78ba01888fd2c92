//! Native backend adapter contract: starting a drag and following it.
//!
//! Diagnostics and lifecycle events of all drags go through one [`BackendBus`].
//! Events are drained by whoever comes first; the end of a drag is also kept
//! under its id, so that another window cannot take it away.

use std::collections::HashMap;

use vstd::prelude::*;
use vstd::std_specs::convert::FromSpecImpl;

use crate::dnd::DragSessionReport;
use crate::platform::{DragBackendKind, DragCompletion, DragFailureKind, DragRoute};
use crate::queue::ExternalDragPayload;
use crate::text::{decimal, decimal_text, texts};
use crate::window::{DragWindow, WindowHandle};

verus! {

broadcast use vstd::std_specs::hash::group_hash_axioms;

/// Successful backend start information.
#[derive(Clone, Copy, Debug, PartialEq, Eq, Structural)]
pub struct BackendStart {
    pub drag_id: u64,
    pub backend: DragBackendKind,
    pub route: DragRoute,
    pub file_count: usize,
}

/// Backend drag lifecycle phase used by toolkit adapters to gate re-entry.
#[derive(Clone, Copy, Debug, PartialEq, Eq, Structural)]
pub enum ExternalDragLifecyclePhase {
    Started,
    DataRequested,
    Dropped,
    Lingering,
    Finished,
    Cancelled,
    Failed,
}

impl ExternalDragLifecyclePhase {
    /// Whether the drag is over.
    pub open spec fn terminal(self) -> bool {
        self is Finished || self is Cancelled || self is Failed
    }

    /// Whether the phase is kept under the id of its drag.
    pub open spec fn routed(self) -> bool {
        self.terminal() || self is Lingering
    }

    /// Whether the drag is over.
    #[must_use]
    pub fn is_terminal(self) -> (terminal: bool)
        ensures
            terminal == self.terminal(),
    {
        match self {
            ExternalDragLifecyclePhase::Finished
            | ExternalDragLifecyclePhase::Cancelled
            | ExternalDragLifecyclePhase::Failed => true,
            ExternalDragLifecyclePhase::Started
            | ExternalDragLifecyclePhase::DataRequested
            | ExternalDragLifecyclePhase::Dropped
            | ExternalDragLifecyclePhase::Lingering => false,
        }
    }
}

/// Typed backend drag lifecycle event.
#[derive(Clone, Copy, Debug, PartialEq, Eq, Structural)]
pub struct ExternalDragLifecycleEvent {
    pub drag_id: u64,
    pub phase: ExternalDragLifecyclePhase,
}

impl ExternalDragLifecycleEvent {
    /// Build an event.
    #[must_use]
    pub fn new(drag_id: u64, phase: ExternalDragLifecyclePhase) -> (event: Self)
        ensures
            event == (ExternalDragLifecycleEvent { drag_id, phase }),
    {
        ExternalDragLifecycleEvent { drag_id, phase }
    }
}

/// Error returned by a native drag backend.
#[derive(Clone, Debug, PartialEq, Eq)]
pub enum ExternalDragError {
    EmptyPayload,
    UnsupportedBackend { backend: DragBackendKind, window: String },
    MissingWindowHandle(&'static str),
    BackendUnavailable(String),
    StartFailed(String),
}

impl ExternalDragError {
    /// The text of the error.
    pub open spec fn text(self) -> Seq<char> {
        match self {
            ExternalDragError::EmptyPayload => "no files to drag"@,
            ExternalDragError::UnsupportedBackend { backend, window } =>
                "external file drag is not implemented for "@ + backend.title() + " from "@
                    + window@,
            ExternalDragError::MissingWindowHandle(message) => message@,
            ExternalDragError::BackendUnavailable(message) => message@,
            ExternalDragError::StartFailed(message) => message@,
        }
    }

    /// The text of the error.
    #[must_use]
    pub fn message(&self) -> (text: String)
        ensures
            text@ == self.text(),
    {
        match self {
            ExternalDragError::EmptyPayload => "no files to drag".to_owned(),
            ExternalDragError::UnsupportedBackend { backend, window } => {
                "external file drag is not implemented for ".to_owned().concat(
                    backend.summary(),
                ).concat(" from ").concat(window.as_str())
            },
            ExternalDragError::MissingWindowHandle(message) => (*message).to_owned(),
            ExternalDragError::BackendUnavailable(message) => message.clone(),
            ExternalDragError::StartFailed(message) => message.clone(),
        }
    }
}

impl From<String> for ExternalDragError {
    fn from(message: String) -> (error: Self) {
        ExternalDragError::StartFailed(message)
    }
}

impl FromSpecImpl<String> for ExternalDragError {
    open spec fn obeys_from_spec() -> bool {
        true
    }

    open spec fn from_spec(message: String) -> Self {
        ExternalDragError::StartFailed(message)
    }
}

// ---------------------------------------------------------------------------
// The bus
// ---------------------------------------------------------------------------

/// Diagnostics and lifecycle events of all drags.
#[derive(Debug)]
pub struct BackendBus {
    events: Vec<String>,
    lifecycle: Vec<ExternalDragLifecycleEvent>,
    phases: HashMap<u64, ExternalDragLifecyclePhase>,
}

/// The bus as a mathematical value.
pub struct BusView {
    /// Diagnostics that were not drained, oldest first.
    pub events: Seq<Seq<char>>,
    /// Lifecycle events that were not drained, oldest first.
    pub lifecycle: Seq<ExternalDragLifecycleEvent>,
    /// Ends of drags that were not taken.
    pub phases: Map<u64, ExternalDragLifecyclePhase>,
}

impl View for BackendBus {
    type V = BusView;

    closed spec fn view(&self) -> BusView {
        BusView {
            events: texts(self.events@),
            lifecycle: self.lifecycle@,
            phases: self.phases@,
        }
    }
}

impl BusView {
    /// Whether only ends of drags are kept under their ids.
    pub open spec fn valid(self) -> bool {
        forall|id: u64| #[trigger] self.phases.contains_key(id) ==> self.phases[id].routed()
    }

    /// The bus after a diagnostic.
    pub open spec fn with_event(self, message: Seq<char>) -> BusView {
        BusView { events: self.events.push(message), ..self }
    }

    /// The bus after a lifecycle event.
    pub open spec fn with_lifecycle(self, event: ExternalDragLifecycleEvent) -> BusView {
        BusView {
            lifecycle: self.lifecycle.push(event),
            phases: if event.phase.routed() {
                self.phases.insert(event.drag_id, event.phase)
            } else {
                self.phases
            },
            ..self
        }
    }

    /// The end of a drag that can be taken.
    pub open spec fn waiting(self, drag_id: u64) -> Option<ExternalDragLifecyclePhase> {
        if self.phases.contains_key(drag_id) && self.phases[drag_id].routed() {
            Some(self.phases[drag_id])
        } else {
            None
        }
    }

    /// The bus after the end of a drag was taken.
    pub open spec fn without_end(self, drag_id: u64) -> BusView {
        if self.waiting(drag_id) is Some {
            BusView { phases: self.phases.remove(drag_id), ..self }
        } else {
            self
        }
    }
}

impl BackendBus {
    /// An empty bus.
    pub fn new() -> (bus: BackendBus)
        ensures
            bus@ == (BusView { events: seq![], lifecycle: seq![], phases: Map::empty() }),
            bus@.valid(),
    {
        let bus = BackendBus { events: Vec::new(), lifecycle: Vec::new(), phases: HashMap::new() };
        assert(bus@.events =~= seq![]);
        bus
    }
}

/// Emit a backend diagnostic event.
pub fn emit_backend_event(bus: &mut BackendBus, message: String)
    ensures
        final(bus)@ == old(bus)@.with_event(message@),
{
    bus.events.push(message);
    assert(texts(bus.events@) =~= texts(old(bus).events@).push(message@));
}

/// Emit a typed backend lifecycle event.
pub fn emit_backend_lifecycle_event(bus: &mut BackendBus, event: ExternalDragLifecycleEvent)
    ensures
        final(bus)@ == old(bus)@.with_lifecycle(event),
        old(bus)@.valid() ==> final(bus)@.valid(),
{
    if event.phase.is_terminal() || event.phase == ExternalDragLifecyclePhase::Lingering {
        bus.phases.insert(event.drag_id, event.phase);
    }
    bus.lifecycle.push(event);
    proof {
        let phases = old(bus)@.phases;
        assert forall|id: u64| old(bus)@.valid() && #[trigger] bus@.phases.contains_key(id) implies
            bus@.phases[id].routed() by {
            if id != event.drag_id || !event.phase.routed() {
                assert(phases.contains_key(id));
            }
        }
    }
}

/// Remove and return a routed terminal or lingering lifecycle phase for one drag id.
///
/// Unlike [`drain_backend_lifecycle_events`], this cannot be stolen by another window
/// that does not own the drag id.
#[must_use]
pub fn take_drag_terminal(bus: &mut BackendBus, drag_id: u64) -> (phase: Option<
    ExternalDragLifecyclePhase,
>)
    ensures
        phase == old(bus)@.waiting(drag_id),
        final(bus)@ == old(bus)@.without_end(drag_id),
        old(bus)@.valid() ==> final(bus)@.valid(),
{
    let found: Option<ExternalDragLifecyclePhase> = match bus.phases.get(&drag_id) {
        Some(phase) => Some(*phase),
        None => None,
    };
    match found {
        Some(phase) => {
            if phase.is_terminal() || phase == ExternalDragLifecyclePhase::Lingering {
                bus.phases.remove(&drag_id);
                Some(phase)
            } else {
                None
            }
        },
        None => None,
    }
}

/// True when a routed terminal or lingering lifecycle phase is waiting for `drag_id`.
#[must_use]
pub fn has_routed_drag_lifecycle(bus: &BackendBus, drag_id: u64) -> (waiting: bool)
    ensures
        waiting == bus@.phases.contains_key(drag_id),
        bus@.valid() ==> waiting == bus@.waiting(drag_id) is Some,
{
    bus.phases.contains_key(&drag_id)
}

/// Drain backend diagnostic events.
#[must_use]
pub fn drain_backend_events(bus: &mut BackendBus) -> (events: Vec<String>)
    ensures
        texts(events@) == old(bus)@.events,
        final(bus)@ == (BusView { events: seq![], ..old(bus)@ }),
{
    let mut events: Vec<String> = Vec::new();
    std::mem::swap(&mut events, &mut bus.events);
    assert(texts(bus.events@) =~= seq![]);
    events
}

/// Drain typed backend lifecycle events.
#[must_use]
pub fn drain_backend_lifecycle_events(bus: &mut BackendBus) -> (events: Vec<
    ExternalDragLifecycleEvent,
>)
    ensures
        events@ == old(bus)@.lifecycle,
        final(bus)@ == (BusView { lifecycle: seq![], ..old(bus)@ }),
{
    let mut events: Vec<ExternalDragLifecycleEvent> = Vec::new();
    std::mem::swap(&mut events, &mut bus.lifecycle);
    assert(bus.lifecycle@ =~= seq![]);
    events
}

/// The end of a drag is kept for the window that owns it, whatever other windows
/// drain and whatever other drags do.
pub proof fn end_of_a_drag_cannot_be_stolen(
    bus: BusView,
    drag_id: u64,
    phase: ExternalDragLifecyclePhase,
    other: ExternalDragLifecycleEvent,
)
    requires
        phase.routed(),
        other.drag_id != drag_id,
    ensures
        ({
            let ended = bus.with_lifecycle(ExternalDragLifecycleEvent { drag_id, phase });
            &&& ended.waiting(drag_id) == Some(phase)
            &&& (BusView { lifecycle: seq![], ..ended }).waiting(drag_id) == Some(phase)
            &&& (BusView { events: seq![], ..ended }).waiting(drag_id) == Some(phase)
            &&& ended.with_lifecycle(other).waiting(drag_id) == Some(phase)
            &&& ended.without_end(other.drag_id).waiting(drag_id) == Some(phase)
        }),
{
}

/// The end of a drag is given out once.
pub proof fn end_of_a_drag_is_taken_once(bus: BusView, drag_id: u64)
    requires
        bus.valid(),
    ensures
        bus.without_end(drag_id).waiting(drag_id) is None,
        !bus.without_end(drag_id).phases.contains_key(drag_id),
{
}

/// Lifecycle events are drained in the order in which they were emitted.
pub proof fn lifecycle_events_keep_their_order(
    bus: BusView,
    first: ExternalDragLifecycleEvent,
    second: ExternalDragLifecycleEvent,
)
    ensures
        bus.with_lifecycle(first).with_lifecycle(second).lifecycle == bus.lifecycle + seq![
            first,
            second,
        ],
{
    assert(bus.lifecycle.push(first).push(second) =~= bus.lifecycle + seq![first, second]);
}

// ---------------------------------------------------------------------------
// Starting a drag
// ---------------------------------------------------------------------------

/// The diagnostic for a drag that was asked for.
pub open spec fn request_line(start: BackendStart, offer_count: usize) -> Seq<char> {
    "[dnd#"@ + decimal(start.drag_id as nat) + "] backend request: backend="@
        + start.backend.name() + ", route="@ + start.route.title() + ", files="@ + decimal(
        start.file_count as nat,
    ) + ", offers="@ + decimal(offer_count as nat)
}

/// What a drag from a window starts with.
pub open spec fn start_of<F>(window: DragWindow, payload: ExternalDragPayload<F>) -> BackendStart {
    BackendStart {
        drag_id: payload.id,
        backend: window.backend(),
        route: window.route(),
        file_count: payload.paths@.len() as usize,
    }
}

/// Ask for an external file drag through the raw-window backend.
///
/// The platform launcher runs next; [`conclude_file_drag`] takes what came of it.
/// `offer_count` is the number of forms in which the files are offered.
///
/// # Errors
///
/// Returns an error when there are no files.
pub fn start_file_drag<F>(
    bus: &mut BackendBus,
    window: DragWindow,
    payload: &ExternalDragPayload<F>,
    offer_count: usize,
) -> (start: Result<BackendStart, ExternalDragError>)
    ensures
        payload.paths@.len() == 0 ==> start == Err::<BackendStart, ExternalDragError>(
            ExternalDragError::EmptyPayload,
        ) && final(bus)@ == old(bus)@,
        payload.paths@.len() > 0 ==> start == Ok::<BackendStart, ExternalDragError>(
            start_of(window, *payload),
        ) && final(bus)@ == old(bus)@.with_event(
            request_line(start_of(window, *payload), offer_count),
        ),
{
    if payload.paths.len() == 0 {
        return Err(ExternalDragError::EmptyPayload);
    }
    let start = BackendStart {
        drag_id: payload.id,
        backend: window.backend_kind(),
        route: window.source_route(),
        file_count: payload.paths.len(),
    };
    let id = decimal_text(start.drag_id);
    let files = decimal_text(start.file_count as u64);
    let offers = decimal_text(offer_count as u64);
    let line = "[dnd#".to_owned().concat(id.as_str()).concat("] backend request: backend=").concat(
        start.backend.as_str(),
    ).concat(", route=").concat(start.route.summary()).concat(", files=").concat(
        files.as_str(),
    ).concat(", offers=").concat(offers.as_str());
    emit_backend_event(bus, line);
    Ok(start)
}

/// The lifecycle phase that a launch ends in.
pub open spec fn launch_phase(launched: Result<(), ExternalDragError>) -> ExternalDragLifecyclePhase {
    if launched is Ok {
        ExternalDragLifecyclePhase::Started
    } else {
        ExternalDragLifecyclePhase::Failed
    }
}

/// Take what came of the platform launcher.
///
/// # Errors
///
/// Returns the error of the launcher.
pub fn conclude_file_drag(
    bus: &mut BackendBus,
    start: BackendStart,
    launched: Result<(), ExternalDragError>,
) -> (result: Result<BackendStart, ExternalDragError>)
    ensures
        final(bus)@ == old(bus)@.with_lifecycle(
            ExternalDragLifecycleEvent { drag_id: start.drag_id, phase: launch_phase(launched) },
        ),
        result == (match launched {
            Ok(_) => Ok::<BackendStart, ExternalDragError>(start),
            Err(error) => Err::<BackendStart, ExternalDragError>(error),
        }),
{
    match launched {
        Ok(_) => {
            emit_backend_lifecycle_event(
                bus,
                ExternalDragLifecycleEvent::new(start.drag_id, ExternalDragLifecyclePhase::Started),
            );
            Ok(start)
        },
        Err(error) => {
            emit_backend_lifecycle_event(
                bus,
                ExternalDragLifecycleEvent::new(start.drag_id, ExternalDragLifecyclePhase::Failed),
            );
            Err(error)
        },
    }
}

/// Native backend interface implemented by toolkit adapters.
pub trait ExternalDragBackend<F> {
    /// Start an external file drag.
    ///
    /// # Errors
    ///
    /// Returns an error when the payload is invalid, the backend is unsupported, or the
    /// native platform refuses to start a drag.
    fn start_file_drag(&mut self, window: DragWindow, payload: ExternalDragPayload<F>) -> Result<
        BackendStart,
        ExternalDragError,
    >;
}

/// Raw-window-handle backend dispatcher.
///
/// It validates payloads before a target-specific native launcher is chosen.
#[derive(Clone, Copy, Debug)]
pub struct RawWindowBackend;

impl Default for RawWindowBackend {
    fn default() -> (backend: Self)
        ensures
            backend == RawWindowBackend,
    {
        RawWindowBackend
    }
}

impl RawWindowBackend {
    /// Ask for an external file drag: see [`start_file_drag`].
    ///
    /// # Errors
    ///
    /// Returns an error when there are no files.
    pub fn start_file_drag<F>(
        &mut self,
        bus: &mut BackendBus,
        window: DragWindow,
        payload: &ExternalDragPayload<F>,
        offer_count: usize,
    ) -> (start: Result<BackendStart, ExternalDragError>)
        ensures
            payload.paths@.len() == 0 ==> start == Err::<BackendStart, ExternalDragError>(
                ExternalDragError::EmptyPayload,
            ) && final(bus)@ == old(bus)@,
            payload.paths@.len() > 0 ==> start == Ok::<BackendStart, ExternalDragError>(
                start_of(window, *payload),
            ) && final(bus)@ == old(bus)@.with_event(
                request_line(start_of(window, *payload), offer_count),
            ),
    {
        start_file_drag(bus, window, payload, offer_count)
    }
}

/// The lifecycle phase that a session ends in.
pub open spec fn terminal_phase(completion: DragCompletion) -> ExternalDragLifecyclePhase {
    match completion {
        DragCompletion::Confirmed | DragCompletion::Inferred => ExternalDragLifecyclePhase::Finished,
        DragCompletion::Failed(DragFailureKind::Cancelled) => ExternalDragLifecyclePhase::Cancelled,
        DragCompletion::Failed(_) => ExternalDragLifecyclePhase::Failed,
    }
}

/// Emit the lifecycle event that ends a session.
pub fn emit_terminal_lifecycle(bus: &mut BackendBus, drag_id: u64, report: &DragSessionReport)
    ensures
        final(bus)@ == old(bus)@.with_lifecycle(
            ExternalDragLifecycleEvent { drag_id, phase: terminal_phase(report.completion) },
        ),
        final(bus)@.waiting(drag_id) == Some(terminal_phase(report.completion)),
{
    let phase = match report.completion {
        DragCompletion::Confirmed | DragCompletion::Inferred => {
            ExternalDragLifecyclePhase::Finished
        },
        DragCompletion::Failed(DragFailureKind::Cancelled) => ExternalDragLifecyclePhase::Cancelled,
        DragCompletion::Failed(_) => ExternalDragLifecyclePhase::Failed,
    };
    emit_backend_lifecycle_event(bus, ExternalDragLifecycleEvent::new(drag_id, phase));
}

/// Check that an XDND drag can start: there are files, and the window is a live X11
/// window. Gives the window.
///
/// # Errors
///
/// Fails without files, and as [`xdnd_origin_window`] does.
pub fn check_xdnd_drag(window: &DragWindow, shown: &str, file_count: usize) -> (origin: Result<
    u32,
    ExternalDragError,
>)
    ensures
        file_count == 0 ==> origin == Err::<u32, ExternalDragError>(
            ExternalDragError::EmptyPayload,
        ),
        file_count > 0 ==> origin_matches(*window, shown@, origin),
{
    if file_count == 0 {
        return Err(ExternalDragError::EmptyPayload);
    }
    xdnd_origin_window(window, shown)
}

/// Whether this is the editor window of an XDND drag, or why there is none.
pub open spec fn origin_matches(
    window: DragWindow,
    shown: Seq<char>,
    origin: Result<u32, ExternalDragError>,
) -> bool {
    match window.handle() {
        WindowHandle::Xlib(id) => if id != 0 {
            origin == Ok::<u32, ExternalDragError>(id as u32)
        } else {
            origin matches Err(ExternalDragError::MissingWindowHandle(message)) && message@
                == "window does not have a valid X11/XWayland handle"@
        },
        WindowHandle::Xcb(id) => if id != 0 {
            origin == Ok::<u32, ExternalDragError>(id)
        } else {
            origin matches Err(ExternalDragError::MissingWindowHandle(message)) && message@
                == "window does not have a valid X11/XWayland handle"@
        },
        WindowHandle::Wayland(_) => origin matches Err(
            ExternalDragError::BackendUnavailable(message),
        ) && message@
            == "native Wayland drag requires a live WaylandRuntime with the initiating pointer serial"@,
        _ => origin matches Err(ExternalDragError::UnsupportedBackend { backend, window: text })
            && backend == window.backend() && text@ == shown,
    }
}

/// The editor window of an XDND drag, or why there is none. `shown` is the window
/// as shown in diagnostics.
pub fn xdnd_origin_window(window: &DragWindow, shown: &str) -> (origin: Result<
    u32,
    ExternalDragError,
>)
    ensures
        origin_matches(*window, shown@, origin),
{
    match window.window() {
        WindowHandle::Xlib(id) => {
            if id != 0 {
                Ok(id as u32)
            } else {
                Err(
                    ExternalDragError::MissingWindowHandle(
                        "window does not have a valid X11/XWayland handle",
                    ),
                )
            }
        },
        WindowHandle::Xcb(id) => {
            if id != 0 {
                Ok(id)
            } else {
                Err(
                    ExternalDragError::MissingWindowHandle(
                        "window does not have a valid X11/XWayland handle",
                    ),
                )
            }
        },
        WindowHandle::Wayland(_) => Err(
            ExternalDragError::BackendUnavailable(
                "native Wayland drag requires a live WaylandRuntime with the initiating pointer serial".to_owned(),
            ),
        ),
        WindowHandle::AppKit(_)
        | WindowHandle::Win32(_)
        | WindowHandle::WinRt
        | WindowHandle::Other => Err(
            ExternalDragError::UnsupportedBackend {
                backend: window.backend_kind(),
                window: shown.to_owned(),
            },
        ),
    }
}

// ---------------------------------------------------------------------------
// How a drag is reported to have ended
// ---------------------------------------------------------------------------

/// A session is reported as finished exactly when the files were delivered, for sure or by
/// inference; as cancelled exactly when the user cancelled it; and any other failure is
/// reported as a failure.
pub proof fn only_deliveries_are_reported_as_finished(completion: DragCompletion)
    ensures
        terminal_phase(completion) is Finished <==> completion == DragCompletion::Confirmed
            || completion == DragCompletion::Inferred,
        terminal_phase(completion) is Cancelled <==> completion == DragCompletion::Failed(
            DragFailureKind::Cancelled,
        ),
        terminal_phase(completion) is Failed <==> (completion matches DragCompletion::Failed(kind)
            && kind != DragFailureKind::Cancelled),
{
}

/// The end of a session waits for the owner of the drag, and tells it how the drag ended.
pub proof fn end_of_a_session_reaches_its_owner(
    bus: BusView,
    drag_id: u64,
    completion: DragCompletion,
)
    ensures
        ({
            let ended = bus.with_lifecycle(
                ExternalDragLifecycleEvent { drag_id, phase: terminal_phase(completion) },
            );
            &&& ended.waiting(drag_id) == Some(
                if completion == DragCompletion::Confirmed || completion
                    == DragCompletion::Inferred {
                    ExternalDragLifecyclePhase::Finished
                } else if completion == DragCompletion::Failed(DragFailureKind::Cancelled) {
                    ExternalDragLifecyclePhase::Cancelled
                } else {
                    ExternalDragLifecyclePhase::Failed
                },
            )
            &&& ended.without_end(drag_id).waiting(drag_id) is None
        }),
{
}

/// Every end of a drag, and a linger, waits under the id of its drag, and replaces what
/// waited there; the phases of a drag that goes on leave what waits as it is. Each event
/// is drained after the earlier ones, and no diagnostic is lost.
pub proof fn only_ends_and_lingers_wait(bus: BusView, event: ExternalDragLifecycleEvent)
    ensures
        ({
            let after = bus.with_lifecycle(event);
            let kept = event.phase == ExternalDragLifecyclePhase::Finished || event.phase
                == ExternalDragLifecyclePhase::Cancelled || event.phase
                == ExternalDragLifecyclePhase::Failed || event.phase
                == ExternalDragLifecyclePhase::Lingering;
            &&& kept ==> after.waiting(event.drag_id) == Some(event.phase)
            &&& !kept ==> after.phases == bus.phases
            &&& forall|other: u64|
                other != event.drag_id ==> #[trigger] after.waiting(other) == bus.waiting(other)
            &&& after.lifecycle == bus.lifecycle + seq![event]
            &&& after.events == bus.events
        }),
{
    assert(bus.lifecycle.push(event) =~= bus.lifecycle + seq![event]);
}

/// A phase is terminal exactly when nothing of the drag follows it.
pub proof fn a_lingering_drag_is_not_over(phase: ExternalDragLifecyclePhase)
    ensures
        phase.terminal() <==> phase == ExternalDragLifecyclePhase::Finished || phase
            == ExternalDragLifecyclePhase::Cancelled || phase
            == ExternalDragLifecyclePhase::Failed,
{
}

/// Diagnostics are drained in the order in which they were emitted, and touch nothing else.
pub proof fn diagnostics_keep_their_order(bus: BusView, first: Seq<char>, second: Seq<char>)
    ensures
        ({
            let after = bus.with_event(first).with_event(second);
            &&& after.events == bus.events + seq![first, second]
            &&& after.lifecycle == bus.lifecycle
            &&& after.phases == bus.phases
        }),
{
    assert(bus.events.push(first).push(second) =~= bus.events + seq![first, second]);
}

/// A launch that failed leaves the owner a failed drag to take; one that succeeded leaves
/// nothing to take yet.
pub proof fn failed_launch_ends_the_drag(
    bus: BusView,
    drag_id: u64,
    launched: Result<(), ExternalDragError>,
)
    ensures
        ({
            let after = bus.with_lifecycle(
                ExternalDragLifecycleEvent { drag_id, phase: launch_phase(launched) },
            );
            &&& launched is Err ==> after.waiting(drag_id) == Some(
                ExternalDragLifecyclePhase::Failed,
            )
            &&& launched is Ok ==> after.phases == bus.phases && after.lifecycle.last().phase
                == ExternalDragLifecyclePhase::Started
        }),
{
}

/// A drag starts under the id of its payload, with all its files, by the backend and the
/// route of its window.
pub proof fn start_names_the_payload<F>(window: DragWindow, payload: ExternalDragPayload<F>)
    requires
        payload.paths@.len() <= usize::MAX,
    ensures
        start_of(window, payload).drag_id == payload.id,
        start_of(window, payload).file_count == payload.paths@.len(),
        start_of(window, payload).backend == window.backend(),
        start_of(window, payload).route == window.route(),
{
}

/// An XDND drag has an editor window exactly when the window is an X11 one with an id, and
/// then it is that window. A native Wayland window is told apart from windows that no X11
/// drag can start from.
pub proof fn only_live_x11_windows_start_an_xdnd_drag(
    window: DragWindow,
    shown: Seq<char>,
    origin: Result<u32, ExternalDragError>,
)
    requires
        origin_matches(window, shown, origin),
    ensures
        origin is Ok <==> (window.handle() matches WindowHandle::Xlib(id) && id != 0) || (
        window.handle() matches WindowHandle::Xcb(id) && id != 0),
        origin matches Ok(found) ==> (match window.handle() {
            WindowHandle::Xcb(id) => found == id,
            WindowHandle::Xlib(id) => id <= u32::MAX ==> found == id,
            _ => false,
        }),
        origin matches Err(ExternalDragError::BackendUnavailable(_))
            <==> window.handle() is Wayland,
        origin matches Err(ExternalDragError::MissingWindowHandle(_)) <==> window.handle()
            == WindowHandle::Xlib(0) || window.handle() == WindowHandle::Xcb(0),
        !(origin matches Err(ExternalDragError::EmptyPayload)),
        !(origin matches Err(ExternalDragError::StartFailed(_))),
{
}

} // verus!
