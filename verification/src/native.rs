//! The native Wayland drag that takes over from an XDND drag.
//!
//! An editor inside an XWayland host has no serial for a native drag. On a
//! compositor that takes a drag without one, the drag is started on a connection
//! of its own, and what the compositor reports is collected as evidence: how the
//! drag ended is concluded from it. Times are nanoseconds of a monotonic clock.

use vstd::prelude::*;

use crate::backend::{
    emit_backend_event, emit_backend_lifecycle_event, BackendBus, ExternalDragLifecycleEvent,
    ExternalDragLifecyclePhase,
};
use crate::data_device::{text_of, ActiveView, ActiveWaylandDrag, PendingView};
use crate::dnd::{DragSessionReport, DragSessionStats};
use crate::payload::FileDragPayloadData;
use crate::platform::{DragCompletion, DragFailureKind};
use crate::pointer::PointerReleaseProbe;
use crate::request::{copy_bytes, offer_views, OfferView, WaylandDragOffer};
use crate::state::active_view;
use crate::text::{
    ascii_lowercase, contains_text, decimal, decimal_text, is_switched_on, lowered, occurs_in,
    same_text, switches_on,
};

verus! {

/// How long a native drag session may stay open overall. Drags end on the physical
/// button release, so this is only a safety net against a compositor that never
/// delivers a terminal event.
pub const SESSION_DEADLINE: u64 = 120_000_000_000;

/// Idle grace after a drop before inferring the outcome from the evidence.
pub const POST_DROP_QUIET: u64 = 1_500_000_000;

/// How long the client stays connected after a bridged drop, so that the compositor
/// can finish its cleanup.
pub const BRIDGE_LINGER_TIMEOUT: u64 = 4_000_000_000;

/// A cancellation this early, with zero target interaction, means the compositor
/// refused the serial-less drag rather than the user missing.
pub const EARLY_REJECT_WINDOW: u64 = 1_000_000_000;

/// The longest wait for one round of events.
pub const DISPATCH_WAIT: u64 = 50_000_000;

/// Nanoseconds of a millisecond.
pub const MILLISECOND: u64 = 1_000_000;

/// Why the native route could not complete.
#[derive(Debug)]
pub enum NativeDragError {
    /// Setup failed before the drag started (no display, no globals, ...).
    Unavailable(String),
    /// The compositor cancelled the drag immediately: serial validation.
    Rejected(String),
}

impl NativeDragError {
    /// The error of a setup step that failed for a reason.
    pub fn unavailable(step: &str, reason: &str) -> (error: Self)
        ensures
            error matches NativeDragError::Unavailable(detail) && detail@ == step@ + ": "@ + reason@,
    {
        NativeDragError::Unavailable(step.to_owned().concat(": ").concat(reason))
    }

    /// The text of the error.
    pub open spec fn text(self) -> Seq<char> {
        match self {
            NativeDragError::Unavailable(detail) => "native Wayland route unavailable: "@ + detail@,
            NativeDragError::Rejected(detail) =>
                "compositor rejected serial-less native drag: "@ + detail@,
        }
    }

    /// The text of the error.
    #[must_use]
    pub fn message(&self) -> (text: String)
        ensures
            text@ == self.text(),
    {
        match self {
            NativeDragError::Unavailable(detail) => {
                "native Wayland route unavailable: ".to_owned().concat(detail.as_str())
            },
            NativeDragError::Rejected(detail) => {
                "compositor rejected serial-less native drag: ".to_owned().concat(detail.as_str())
            },
        }
    }
}

// ---------------------------------------------------------------------------
// Whether the route is taken
// ---------------------------------------------------------------------------

/// Whether a desktop calls itself Hyprland.
pub open spec fn is_hyprland(desktop: Seq<char>) -> bool {
    occurs_in(lowered(desktop), "hyprland"@)
}

/// Whether a desktop calls itself Hyprland.
pub fn names_hyprland(desktop: &str) -> (hyprland: bool)
    ensures
        hyprland == is_hyprland(desktop@),
{
    let lower = ascii_lowercase(desktop);
    contains_text(lower.as_str(), "hyprland")
}

/// True when the serial-less native drag route should be attempted.
///
/// `forced` (`AUDIO_PLUGIN_DND_NATIVE_WAYLAND`) enables or disables the route. By
/// default it is only used on Hyprland, under a Wayland session: `signature` says
/// whether `HYPRLAND_INSTANCE_SIGNATURE` is set, `desktop` is
/// `XDG_CURRENT_DESKTOP`.
#[must_use]
pub fn route_enabled(
    forced: Option<&str>,
    wayland_display: bool,
    signature: bool,
    desktop: Option<&str>,
) -> (enabled: bool)
    ensures
        enabled == (match forced {
            Some(value) => switches_on(value@),
            None => wayland_display && (signature || (match desktop {
                Some(name) => is_hyprland(name@),
                None => false,
            })),
        }),
{
    if let Some(value) = forced {
        return is_switched_on(value);
    }
    if !wayland_display {
        return false;
    }
    if signature {
        return true;
    }
    match desktop {
        Some(name) => names_hyprland(name),
        None => false,
    }
}

// ---------------------------------------------------------------------------
// What is offered
// ---------------------------------------------------------------------------

/// The offers of a native drag: the key of a portal file transfer first, where
/// there is one.
pub open spec fn drag_offers(portal_key: Option<Seq<u8>>, offers: Seq<OfferView>) -> Seq<OfferView> {
    match portal_key {
        Some(key) => seq![
            OfferView { mime_type: "application/vnd.portal.filetransfer"@, data: key },
            OfferView { mime_type: "application/vnd.portal.files"@, data: key },
        ] + offers,
        None => offers,
    }
}

/// The offers of a native drag.
pub fn native_offers(portal_key: Option<Vec<u8>>, payload: &FileDragPayloadData) -> (offers: Vec<
    WaylandDragOffer,
>)
    ensures
        offer_views(offers@) == drag_offers(
            match portal_key {
                Some(key) => Some(key@),
                None => None,
            },
            payload@.offers,
        ),
{
    let mut files = payload.wayland_offers();
    match portal_key {
        Some(key) => {
            let mut offers: Vec<WaylandDragOffer> = Vec::new();
            offers.push(
                WaylandDragOffer::new(
                    "application/vnd.portal.filetransfer".to_owned(),
                    copy_bytes(&key),
                ),
            );
            offers.push(WaylandDragOffer::new("application/vnd.portal.files".to_owned(), key));
            let ghost first = offers@;
            offers.append(&mut files);
            assert(offer_views(offers@) =~= offer_views(first) + payload@.offers);
            assert(offer_views(first) =~= seq![
                OfferView { mime_type: "application/vnd.portal.filetransfer"@, data: key@ },
                OfferView { mime_type: "application/vnd.portal.files"@, data: key@ },
            ]);
            offers
        },
        None => files,
    }
}

// ---------------------------------------------------------------------------
// Evidence
// ---------------------------------------------------------------------------

/// What the compositor reported of a drag.
#[derive(Clone, Debug)]
pub struct DragEvidence {
    pub target_interacted: bool,
    pub accepted_mime: Option<String>,
    pub send_requests: usize,
    pub post_drop_send_requests: usize,
    pub drop_performed: bool,
    pub pointer_released: bool,
    pub finished: bool,
    pub cancelled: bool,
    pub last_activity: Option<u64>,
}

/// The evidence as a mathematical value.
pub struct EvidenceView {
    pub target_interacted: bool,
    pub accepted_mime: Option<Seq<char>>,
    pub send_requests: usize,
    pub post_drop_send_requests: usize,
    pub drop_performed: bool,
    pub pointer_released: bool,
    pub finished: bool,
    pub cancelled: bool,
    pub last_activity: Option<u64>,
}

impl View for DragEvidence {
    type V = EvidenceView;

    open spec fn view(&self) -> EvidenceView {
        EvidenceView {
            target_interacted: self.target_interacted,
            accepted_mime: text_of(self.accepted_mime),
            send_requests: self.send_requests,
            post_drop_send_requests: self.post_drop_send_requests,
            drop_performed: self.drop_performed,
            pointer_released: self.pointer_released,
            finished: self.finished,
            cancelled: self.cancelled,
            last_activity: self.last_activity,
        }
    }
}

impl EvidenceView {
    /// Whether the counters fit together.
    pub open spec fn valid(self) -> bool {
        &&& self.post_drop_send_requests <= self.send_requests
        &&& !self.drop_performed ==> self.post_drop_send_requests == 0
    }

    /// The evidence after the release of the button.
    pub open spec fn with_release(self, now: u64) -> EvidenceView {
        if self.pointer_released {
            self
        } else {
            EvidenceView { pointer_released: true, last_activity: Some(now), ..self }
        }
    }

    /// The evidence after a target accepted a MIME type, or none.
    pub open spec fn with_accept(self, mime: Option<Seq<char>>, now: u64) -> EvidenceView {
        EvidenceView {
            target_interacted: true,
            accepted_mime: if mime is Some {
                mime
            } else {
                self.accepted_mime
            },
            last_activity: Some(now),
            ..self
        }
    }

    /// The evidence after a target asked for data.
    pub open spec fn with_send(self, now: u64) -> EvidenceView {
        EvidenceView {
            target_interacted: true,
            send_requests: (self.send_requests + 1) as usize,
            post_drop_send_requests: if self.drop_performed {
                (self.post_drop_send_requests + 1) as usize
            } else {
                self.post_drop_send_requests
            },
            last_activity: Some(now),
            ..self
        }
    }

    /// The evidence after the drag was cancelled.
    pub open spec fn with_cancel(self, now: u64) -> EvidenceView {
        EvidenceView { cancelled: true, last_activity: Some(now), ..self }
    }

    /// The evidence after the drop.
    pub open spec fn with_drop(self, now: u64) -> EvidenceView {
        EvidenceView { drop_performed: true, last_activity: Some(now), ..self }
    }

    /// The evidence after the target was done.
    pub open spec fn with_finish(self, now: u64) -> EvidenceView {
        EvidenceView { finished: true, last_activity: Some(now), ..self }
    }

    /// Whether nothing has happened for a while.
    pub open spec fn quiet(self, now: u64) -> bool {
        self.last_activity matches Some(at) && now > at + POST_DROP_QUIET
    }

    /// Whether the session is over.
    pub open spec fn over(self, started: u64, now: u64) -> bool {
        ||| self.finished
        ||| self.cancelled
        ||| self.drop_performed && self.quiet(now)
        ||| self.pointer_released && self.send_requests > 0 && self.quiet(now)
        ||| now > started + SESSION_DEADLINE
    }

    /// Whether the compositor refused the drag.
    pub open spec fn refused(self, started: u64, now: u64) -> bool {
        self.cancelled && !self.drop_performed && !self.target_interacted && self.send_requests == 0
            && now < started + EARLY_REJECT_WINDOW
    }

    /// Whether the compositor may still hold the drag.
    pub open spec fn lingers(self) -> bool {
        !self.finished && !self.cancelled && (self.send_requests > 0 || self.drop_performed)
    }

    /// How the drag ended.
    pub open spec fn conclusion(self) -> (DragCompletion, Seq<char>) {
        if self.finished {
            (DragCompletion::Confirmed, "target finished the native Wayland drag"@)
        } else if self.drop_performed && self.send_requests > 0 {
            (DragCompletion::Confirmed, "drop performed and target requested file data"@)
        } else if self.pointer_released && self.send_requests > 0 {
            (
                DragCompletion::Inferred,
                "target requested file data through the compositor bridge after release"@,
            )
        } else if self.drop_performed {
            (
                DragCompletion::Inferred,
                "compositor reported the drop but no data was requested yet"@,
            )
        } else if self.cancelled {
            (
                DragCompletion::Failed(DragFailureKind::Cancelled),
                "compositor cancelled the native drag (released outside a target or target refused)"@,
            )
        } else {
            (
                DragCompletion::Failed(DragFailureKind::TargetNoData),
                "native drag session ended without a drop or data request"@,
            )
        }
    }

    /// The request counters.
    pub open spec fn counters(self) -> DragSessionStats {
        DragSessionStats {
            selection_requests: self.send_requests as u32,
            pre_drop_data_requests: (if self.send_requests >= self.post_drop_send_requests {
                (self.send_requests - self.post_drop_send_requests) as usize
            } else {
                0
            }) as u32,
            post_drop_data_requests: self.post_drop_send_requests as u32,
            drop_target_data_requests: self.post_drop_send_requests as u32,
        }
    }

    /// Why a linger ends.
    pub open spec fn linger_end(self) -> Seq<char> {
        if self.finished {
            "dnd_finished"@
        } else if self.cancelled {
            "cancelled"@
        } else {
            "grace_timeout"@
        }
    }
}

/// The detail of a refusal.
pub open spec fn refusal_line(started: u64, now: u64) -> Seq<char> {
    "cancelled "@ + decimal(((now - started) / MILLISECOND as int) as nat)
        + "ms after start with no target interaction"@
}

fn elapsed_beyond(since: u64, span: u64, now: u64) -> (beyond: bool)
    ensures
        beyond == (now > since + span),
{
    now > since && now - since > span
}

impl DragEvidence {
    /// No evidence yet.
    pub fn new() -> (evidence: Self)
        ensures
            evidence@ == (EvidenceView {
                target_interacted: false,
                accepted_mime: None,
                send_requests: 0,
                post_drop_send_requests: 0,
                drop_performed: false,
                pointer_released: false,
                finished: false,
                cancelled: false,
                last_activity: None,
            }),
            evidence@.valid(),
    {
        DragEvidence {
            target_interacted: false,
            accepted_mime: None,
            send_requests: 0,
            post_drop_send_requests: 0,
            drop_performed: false,
            pointer_released: false,
            finished: false,
            cancelled: false,
            last_activity: None,
        }
    }

    /// Note that something happened.
    pub fn touch(&mut self, now: u64)
        ensures
            final(self)@ == (EvidenceView { last_activity: Some(now), ..old(self)@ }),
    {
        self.last_activity = Some(now);
    }

    /// Note the release of the button.
    pub fn note_pointer_released(&mut self, now: u64)
        ensures
            final(self)@ == old(self)@.with_release(now),
    {
        if self.pointer_released {
            return;
        }
        self.pointer_released = true;
        self.touch(now);
    }

    /// Note that a target accepted a MIME type, or none. Gives whether the type is
    /// news.
    pub fn note_accept(&mut self, mime: &Option<String>, now: u64) -> (news: bool)
        ensures
            final(self)@ == old(self)@.with_accept(text_of(*mime), now),
            news == (mime is Some && old(self)@.accepted_mime != text_of(*mime)),
    {
        self.target_interacted = true;
        self.touch(now);
        match mime {
            Some(accepted) => {
                let news = match &self.accepted_mime {
                    Some(before) => !same_text(before.as_str(), accepted.as_str()),
                    None => true,
                };
                self.accepted_mime = Some(accepted.clone());
                news
            },
            None => false,
        }
    }

    /// Note that a target asked for data.
    pub fn note_send(&mut self, now: u64)
        requires
            old(self)@.valid(),
            old(self)@.send_requests < usize::MAX,
        ensures
            final(self)@ == old(self)@.with_send(now),
            final(self)@.valid(),
    {
        self.target_interacted = true;
        self.send_requests = self.send_requests + 1;
        if self.drop_performed {
            self.post_drop_send_requests = self.post_drop_send_requests + 1;
        }
        self.touch(now);
    }

    /// Note that the drag was cancelled.
    pub fn note_cancelled(&mut self, now: u64)
        ensures
            final(self)@ == old(self)@.with_cancel(now),
    {
        self.cancelled = true;
        self.touch(now);
    }

    /// Note the drop.
    pub fn note_dropped(&mut self, now: u64)
        ensures
            final(self)@ == old(self)@.with_drop(now),
    {
        self.drop_performed = true;
        self.touch(now);
    }

    /// Note that the target was done.
    pub fn note_finished(&mut self, now: u64)
        ensures
            final(self)@ == old(self)@.with_finish(now),
    {
        self.finished = true;
        self.touch(now);
    }

    fn is_quiet(&self, now: u64) -> (quiet: bool)
        ensures
            quiet == self@.quiet(now),
    {
        match self.last_activity {
            Some(at) => elapsed_beyond(at, POST_DROP_QUIET, now),
            None => false,
        }
    }

    /// Whether the session is over: it finished or was cancelled, or it went quiet
    /// after a drop or after a bridged transfer, or it took too long.
    #[must_use]
    pub fn session_over(&self, started: u64, now: u64) -> (over: bool)
        ensures
            over == self@.over(started, now),
    {
        if self.finished || self.cancelled {
            return true;
        }
        if self.drop_performed && self.is_quiet(now) {
            return true;
        }
        if self.pointer_released && self.send_requests > 0 && self.is_quiet(now) {
            return true;
        }
        elapsed_beyond(started, SESSION_DEADLINE, now)
    }

    /// Why the compositor refused the drag, if it did.
    pub fn early_reject(&self, started: u64, now: u64) -> (error: Option<NativeDragError>)
        requires
            started <= now,
        ensures
            error is Some == self@.refused(started, now),
            error matches Some(reason) ==> (reason matches NativeDragError::Rejected(detail)
                && detail@ == refusal_line(started, now)),
    {
        if self.cancelled && !self.drop_performed && !self.target_interacted && self.send_requests
            == 0 && now - started < EARLY_REJECT_WINDOW {
            let millis = decimal_text((now - started) / MILLISECOND);
            Some(
                NativeDragError::Rejected(
                    "cancelled ".to_owned().concat(millis.as_str()).concat(
                        "ms after start with no target interaction",
                    ),
                ),
            )
        } else {
            None
        }
    }

    /// The request counters.
    #[must_use]
    pub fn stats(&self) -> (stats: DragSessionStats)
        ensures
            stats == self@.counters(),
    {
        let before: usize = if self.send_requests >= self.post_drop_send_requests {
            self.send_requests - self.post_drop_send_requests
        } else {
            0
        };
        DragSessionStats {
            selection_requests: self.send_requests as u32,
            pre_drop_data_requests: before as u32,
            post_drop_data_requests: self.post_drop_send_requests as u32,
            drop_target_data_requests: self.post_drop_send_requests as u32,
        }
    }

    /// Report how the drag ended.
    #[must_use]
    pub fn into_report(self) -> (report: DragSessionReport)
        ensures
            (report.completion, report.detail@) == self@.conclusion(),
            report.stats == self@.counters(),
    {
        self.report()
    }

    /// Report how the drag ended.
    ///
    /// X11 targets fetch data through the compositor bridge after the physical
    /// button release, often without a terminal source event.
    #[must_use]
    pub fn report(&self) -> (report: DragSessionReport)
        ensures
            (report.completion, report.detail@) == self@.conclusion(),
            report.stats == self@.counters(),
    {
        let stats = self.stats();
        if self.finished {
            return DragSessionReport::completed_confirmed(
                stats,
                "target finished the native Wayland drag",
            );
        }
        if self.drop_performed && self.send_requests > 0 {
            return DragSessionReport::completed_confirmed(
                stats,
                "drop performed and target requested file data",
            );
        }
        if self.pointer_released && self.send_requests > 0 {
            return DragSessionReport::completed_inferred(
                stats,
                "target requested file data through the compositor bridge after release",
            );
        }
        if self.drop_performed {
            return DragSessionReport::completed_inferred(
                stats,
                "compositor reported the drop but no data was requested yet",
            );
        }
        if self.cancelled {
            return DragSessionReport::failed(
                DragFailureKind::Cancelled,
                stats,
                "compositor cancelled the native drag (released outside a target or target refused)",
            );
        }
        DragSessionReport::failed(
            DragFailureKind::TargetNoData,
            stats,
            "native drag session ended without a drop or data request",
        )
    }

    /// Why a linger ends.
    #[must_use]
    pub fn linger_reason(&self) -> (reason: &'static str)
        ensures
            reason@ == self@.linger_end(),
    {
        if self.finished {
            "dnd_finished"
        } else if self.cancelled {
            "cancelled"
        } else {
            "grace_timeout"
        }
    }

    /// How long to wait for events while lingering, or `None` when the linger is
    /// over.
    pub fn linger_wait(&self, deadline: u64, now: u64) -> (wait: Option<u64>)
        ensures
            wait is None == (now >= deadline || self@.finished || self@.cancelled),
            wait matches Some(time) ==> time == (if deadline - now < DISPATCH_WAIT {
                deadline - now
            } else {
                DISPATCH_WAIT as int
            }),
    {
        if now >= deadline || self.finished || self.cancelled {
            return None;
        }
        let left: u64 = deadline - now;
        Some(
            if left < DISPATCH_WAIT {
                left
            } else {
                DISPATCH_WAIT
            },
        )
    }
}

/// True when the compositor bridge may still hold drag state after we inferred
/// success but never delivered a terminal `dnd_finished` event.
#[must_use]
pub fn needs_bridge_linger(evidence: &DragEvidence) -> (linger: bool)
    ensures
        linger == evidence@.lingers(),
{
    !evidence.finished && !evidence.cancelled && (evidence.send_requests > 0
        || evidence.drop_performed)
}

// ---------------------------------------------------------------------------
// The session
// ---------------------------------------------------------------------------

/// A native drag session.
#[derive(Debug)]
pub struct NativeDragState {
    drag_id: u64,
    active: Option<ActiveWaylandDrag>,
    evidence: DragEvidence,
}

/// A native drag session as a mathematical value.
pub struct NativeView {
    pub drag_id: u64,
    pub active: Option<ActiveView>,
    pub evidence: EvidenceView,
}

impl View for NativeDragState {
    type V = NativeView;

    closed spec fn view(&self) -> NativeView {
        NativeView {
            drag_id: self.drag_id,
            active: active_view(self.active),
            evidence: self.evidence@,
        }
    }
}

/// A drag after a change, when the data source is its own.
pub open spec fn changed_if_own(
    active: Option<ActiveView>,
    source: u32,
    change: spec_fn(PendingView) -> PendingView,
) -> Option<ActiveView> {
    match active {
        Some(drag) => if drag.source == source {
            Some(ActiveView { source, pending: change(drag.pending) })
        } else {
            active
        },
        None => None,
    }
}

/// A drag after its end, when the data source is its own.
pub open spec fn ended_if_own(active: Option<ActiveView>, source: u32) -> Option<ActiveView> {
    match active {
        Some(drag) => if drag.source == source {
            None
        } else {
            active
        },
        None => None,
    }
}

/// A diagnostic of a drag.
pub open spec fn drag_line(drag_id: u64, message: Seq<char>) -> Seq<char> {
    "[dnd#"@ + decimal(drag_id as nat) + "] "@ + message
}

/// A diagnostic of a drag.
pub fn drag_line_text(drag_id: u64, message: &str) -> (line: String)
    ensures
        line@ == drag_line(drag_id, message@),
{
    let id = decimal_text(drag_id);
    "[dnd#".to_owned().concat(id.as_str()).concat("] ").concat(message)
}

/// A report on the connection of a native drag.
#[derive(Clone, Debug, PartialEq, Eq)]
pub enum NativeNote {
    /// The drag was started.
    Started,
    /// The client stays connected for a while.
    LingerStarted,
    /// The client no longer stays connected, for a reason.
    LingerEnded(&'static str),
    /// What was left to send could not be sent.
    FlushFailed(String),
    /// The connection is closed.
    Disconnected,
}

/// The text of a report.
pub open spec fn native_line(note: NativeNote) -> Seq<char> {
    match note {
        NativeNote::Started =>
            "Native Wayland drag started via serial-less start_drag; native targets get wl_data_device, X11 targets get the compositor bridge"@,
        NativeNote::LingerStarted => "Native Wayland bridge linger started (up to "@ + decimal(
            (BRIDGE_LINGER_TIMEOUT / MILLISECOND) as nat,
        ) + "ms)"@,
        NativeNote::LingerEnded(reason) => "Native Wayland bridge linger ending: "@ + reason@,
        NativeNote::FlushFailed(reason) => "Native Wayland session flush failed: "@ + reason@,
        NativeNote::Disconnected => "Native Wayland session disconnected"@,
    }
}

/// The text of a report.
pub fn native_note_text(note: &NativeNote) -> (line: String)
    ensures
        line@ == native_line(*note),
{
    match note {
        NativeNote::Started => {
            "Native Wayland drag started via serial-less start_drag; native targets get wl_data_device, X11 targets get the compositor bridge".to_owned()
        },
        NativeNote::LingerStarted => {
            let millis = decimal_text(BRIDGE_LINGER_TIMEOUT / MILLISECOND);
            "Native Wayland bridge linger started (up to ".to_owned().concat(
                millis.as_str(),
            ).concat("ms)")
        },
        NativeNote::LingerEnded(reason) => {
            "Native Wayland bridge linger ending: ".to_owned().concat(reason)
        },
        NativeNote::FlushFailed(reason) => {
            "Native Wayland session flush failed: ".to_owned().concat(reason.as_str())
        },
        NativeNote::Disconnected => "Native Wayland session disconnected".to_owned(),
    }
}

impl NativeDragState {
    /// A session whose drag was started.
    pub fn new(drag_id: u64, active: ActiveWaylandDrag) -> (session: Self)
        ensures
            session@.drag_id == drag_id,
            session@.active == Some(active@),
            session@.evidence.valid(),
            session@.evidence == (EvidenceView {
                target_interacted: false,
                accepted_mime: None,
                send_requests: 0,
                post_drop_send_requests: 0,
                drop_performed: false,
                pointer_released: false,
                finished: false,
                cancelled: false,
                last_activity: None,
            }),
    {
        NativeDragState { drag_id, active: Some(active), evidence: DragEvidence::new() }
    }

    /// What the compositor reported.
    pub fn evidence(&self) -> (evidence: &DragEvidence)
        ensures
            evidence@ == self@.evidence,
    {
        &self.evidence
    }

    /// Take that a target accepted a MIME type, or none.
    pub fn accept_mime(
        &mut self,
        bus: &mut BackendBus,
        source: u32,
        mime: Option<String>,
        now: u64,
    )
        ensures
            final(self)@ == (NativeView {
                evidence: old(self)@.evidence.with_accept(text_of(mime), now),
                active: changed_if_own(
                    old(self)@.active,
                    source,
                    |pending: PendingView| PendingView { accepted_mime: text_of(mime), ..pending },
                ),
                ..old(self)@
            }),
            final(bus)@ == (if mime is Some && old(self)@.evidence.accepted_mime != text_of(mime) {
                old(bus)@.with_event(
                    drag_line(
                        old(self)@.drag_id,
                        "Native drag target accepted mime "@ + text_of(mime)->0,
                    ),
                )
            } else {
                old(bus)@
            }),
    {
        let news = self.evidence.note_accept(&mime, now);
        if news {
            if let Some(accepted) = &mime {
                let message = "Native drag target accepted mime ".to_owned().concat(
                    accepted.as_str(),
                );
                emit_backend_event(bus, drag_line_text(self.drag_id, message.as_str()));
            }
        }
        let taken = self.active.take();
        if let Some(drag) = taken {
            let mut drag = drag;
            if drag.matches_source(source) {
                drag.note_accepted_mime(mime);
            }
            self.active = Some(drag);
        }
    }

    /// Take that a target asks for a MIME type. Gives the bytes to write, when the
    /// data source is that of the drag and holds the type.
    pub fn send_request(&mut self, bus: &mut BackendBus, source: u32, mime: &str, now: u64) -> (
    payload: Option<Vec<u8>>)
        requires
            old(self)@.evidence.valid(),
            old(self)@.evidence.send_requests < usize::MAX,
        ensures
            final(self)@ == (NativeView {
                evidence: old(self)@.evidence.with_send(now),
                ..old(self)@
            }),
            final(self)@.evidence.valid(),
            final(bus)@ == old(bus)@.with_event(
                drag_line(old(self)@.drag_id, "Native drag data requested as "@ + mime@),
            ).with_lifecycle(
                ExternalDragLifecycleEvent {
                    drag_id: old(self)@.drag_id,
                    phase: ExternalDragLifecyclePhase::DataRequested,
                },
            ),
            match old(self)@.active {
                Some(drag) => if drag.source == source {
                    &&& payload is Some == crate::data_device::offered_bytes(
                        drag.pending.offers,
                        mime@,
                    ) is Some
                    &&& payload matches Some(bytes) ==> Some(bytes@)
                        == crate::data_device::offered_bytes(drag.pending.offers, mime@)
                } else {
                    payload is None
                },
                None => payload is None,
            },
    {
        self.evidence.note_send(now);
        let message = "Native drag data requested as ".to_owned().concat(mime);
        emit_backend_event(bus, drag_line_text(self.drag_id, message.as_str()));
        emit_backend_lifecycle_event(
            bus,
            ExternalDragLifecycleEvent::new(
                self.drag_id,
                ExternalDragLifecyclePhase::DataRequested,
            ),
        );
        match &self.active {
            Some(drag) => {
                if drag.matches_source(source) {
                    match drag.payload_for_mime(mime) {
                        Some(bytes) => Some(crate::state::slice_bytes(bytes)),
                        None => None,
                    }
                } else {
                    None
                }
            },
            None => None,
        }
    }

    /// Take whether the pipe took the bytes of a MIME type.
    pub fn note_written(&mut self, source: u32, mime: &str, written: bool)
        ensures
            final(self)@ == (NativeView {
                active: changed_if_own(
                    old(self)@.active,
                    source,
                    |pending: PendingView| pending.after_write(mime@, written),
                ),
                ..old(self)@
            }),
    {
        let taken = self.active.take();
        if let Some(drag) = taken {
            let mut drag = drag;
            if drag.matches_source(source) {
                drag.note_written(mime, written);
            }
            self.active = Some(drag);
        }
    }

    fn end_if_own(&mut self, source: u32) -> (destroy: bool)
        ensures
            final(self)@ == (NativeView {
                active: ended_if_own(old(self)@.active, source),
                ..old(self)@
            }),
            destroy == (old(self)@.active matches Some(drag) && drag.source == source),
    {
        match self.active.take() {
            Some(drag) => {
                if drag.matches_source(source) {
                    true
                } else {
                    self.active = Some(drag);
                    false
                }
            },
            None => false,
        }
    }

    /// Take that the drag was cancelled. Gives whether the data source is to be
    /// destroyed.
    pub fn cancelled(&mut self, source: u32, now: u64) -> (destroy: bool)
        ensures
            final(self)@ == (NativeView {
                evidence: old(self)@.evidence.with_cancel(now),
                active: ended_if_own(old(self)@.active, source),
                ..old(self)@
            }),
            destroy == (old(self)@.active matches Some(drag) && drag.source == source),
    {
        self.evidence.note_cancelled(now);
        self.end_if_own(source)
    }

    /// Take the drop.
    pub fn dnd_dropped(&mut self, bus: &mut BackendBus, source: u32, now: u64)
        ensures
            final(self)@ == (NativeView {
                evidence: old(self)@.evidence.with_drop(now),
                active: changed_if_own(
                    old(self)@.active,
                    source,
                    |pending: PendingView| PendingView { drop_performed: true, ..pending },
                ),
                ..old(self)@
            }),
            final(bus)@ == old(bus)@.with_event(
                drag_line(old(self)@.drag_id, "Native drag drop performed"@),
            ).with_lifecycle(
                ExternalDragLifecycleEvent {
                    drag_id: old(self)@.drag_id,
                    phase: ExternalDragLifecyclePhase::Dropped,
                },
            ),
    {
        self.evidence.note_dropped(now);
        emit_backend_event(bus, drag_line_text(self.drag_id, "Native drag drop performed"));
        emit_backend_lifecycle_event(
            bus,
            ExternalDragLifecycleEvent::new(self.drag_id, ExternalDragLifecyclePhase::Dropped),
        );
        let taken = self.active.take();
        if let Some(drag) = taken {
            let mut drag = drag;
            if drag.matches_source(source) {
                drag.note_drop_performed();
            }
            self.active = Some(drag);
        }
    }

    /// Take that the target was done. Gives whether the data source is to be
    /// destroyed.
    pub fn dnd_finished(&mut self, source: u32, now: u64) -> (destroy: bool)
        ensures
            final(self)@ == (NativeView {
                evidence: old(self)@.evidence.with_finish(now),
                active: ended_if_own(old(self)@.active, source),
                ..old(self)@
            }),
            destroy == (old(self)@.active matches Some(drag) && drag.source == source),
    {
        self.evidence.note_finished(now);
        self.end_if_own(source)
    }

    /// Tear the session down. Gives the data source to be destroyed, if there is
    /// one.
    pub fn teardown(&mut self) -> (source: Option<u32>)
        ensures
            final(self)@ == (NativeView { active: None, ..old(self)@ }),
            source == (match old(self)@.active {
                Some(drag) => Some(drag.source),
                None => None,
            }),
    {
        match self.active.take() {
            Some(drag) => Some(drag.source()),
            None => None,
        }
    }
}

/// How a session ends.
#[derive(Debug)]
pub enum NativeEnding {
    /// The compositor refused the drag.
    Rejected(NativeDragError),
    /// The drag ended with a report; the client lingers where the compositor may still
    /// hold it.
    Ended { report: DragSessionReport, linger: bool },
}

impl NativeDragState {
    /// Take a look at the buttons after a round of events; `mask` is the button mask,
    /// where it is available. Gives whether the session is over.
    pub fn after_dispatch(
        &mut self,
        probe: &mut PointerReleaseProbe,
        mask: Option<u16>,
        started: u64,
        now: u64,
    ) -> (over: bool)
        ensures
            *final(probe) == old(probe).looked(mask),
            final(self)@ == (NativeView {
                evidence: if final(probe).released {
                    old(self)@.evidence.with_release(now)
                } else {
                    old(self)@.evidence
                },
                ..old(self)@
            }),
            over == final(self)@.evidence.over(started, now),
    {
        if probe.poll_released(mask) {
            self.evidence.note_pointer_released(now);
        }
        self.evidence.session_over(started, now)
    }

    /// Conclude how a session that is over ended.
    pub fn conclude(&self, started: u64, now: u64) -> (ending: NativeEnding)
        requires
            started <= now,
        ensures
            match ending {
                NativeEnding::Rejected(error) => self@.evidence.refused(started, now) && (
                error matches NativeDragError::Rejected(detail) && detail@ == refusal_line(
                    started,
                    now,
                )),
                NativeEnding::Ended { report, linger } => !self@.evidence.refused(started, now)
                    && (report.completion, report.detail@) == self@.evidence.conclusion()
                    && report.stats == self@.evidence.counters() && linger
                    == self@.evidence.lingers(),
            },
    {
        match self.evidence.early_reject(started, now) {
            Some(error) => NativeEnding::Rejected(error),
            None => {
                let linger = needs_bridge_linger(&self.evidence);
                NativeEnding::Ended { report: self.evidence.report(), linger }
            },
        }
    }
}

// ---------------------------------------------------------------------------
// Laws
// ---------------------------------------------------------------------------

/// Data that was asked for while hovering, before the button was released and
/// before any drop, is no success.
pub proof fn hover_data_is_no_delivery(evidence: EvidenceView)
    requires
        !evidence.finished,
        !evidence.drop_performed,
        !evidence.pointer_released,
    ensures
        evidence.conclusion().0 is Failed,
{
}

/// A drag counts as delivered exactly when it finished, was dropped, or served data
/// with the button released.
pub proof fn native_delivery_needs_evidence(evidence: EvidenceView)
    ensures
        !(evidence.conclusion().0 is Failed) <==> evidence.finished || evidence.drop_performed || (
        evidence.pointer_released && evidence.send_requests > 0),
{
}

/// The client lingers only for drags that were neither finished nor cancelled, and
/// an end that comes late ends the linger.
pub proof fn linger_ends_with_the_drag(evidence: EvidenceView, now: u64)
    ensures
        evidence.lingers() ==> !evidence.finished && !evidence.cancelled,
        !evidence.with_finish(now).lingers(),
        !evidence.with_cancel(now).lingers(),
{
}

/// A session ends: after the deadline it is over, whatever was reported.
pub proof fn native_session_ends(evidence: EvidenceView, started: u64, now: u64)
    requires
        now > started + SESSION_DEADLINE,
    ensures
        evidence.over(started, now),
{
}

/// A refused drag is not mistaken for a delivered one.
pub proof fn refused_drag_is_not_delivered(evidence: EvidenceView, started: u64, now: u64)
    requires
        evidence.refused(started, now),
        !evidence.finished,
    ensures
        evidence.conclusion().0 == DragCompletion::Failed(DragFailureKind::Cancelled),
{
}

/// How a native drag ended follows from what was reported. It is confirmed when the target
/// finished it, or was dropped on and asked for data; inferred when one of the two came
/// with the button released or with the drop; cancelled when the compositor said so and
/// none of this holds; and without data otherwise.
pub proof fn native_report_follows_from_the_evidence(evidence: EvidenceView)
    ensures
        ({
            let completion = evidence.conclusion().0;
            let asked = evidence.send_requests > 0;
            let confirmed = evidence.finished || (evidence.drop_performed && asked);
            let inferred = !confirmed && (evidence.drop_performed || (evidence.pointer_released
                && asked));
            &&& completion == DragCompletion::Confirmed <==> confirmed
            &&& completion == DragCompletion::Inferred <==> inferred
            &&& completion == DragCompletion::Failed(DragFailureKind::Cancelled) <==> !confirmed
                && !inferred && evidence.cancelled
            &&& completion == DragCompletion::Failed(DragFailureKind::TargetNoData) <==> !confirmed
                && !inferred && !evidence.cancelled
        }),
{
}

/// A session is over exactly when the target finished, the compositor cancelled, nothing
/// happened for more than a second and a half after the drop, or after the button was
/// released on a target that asked for data, or when it took more than two minutes.
pub proof fn session_waits_for_an_end_or_for_silence(
    evidence: EvidenceView,
    started: u64,
    now: u64,
)
    ensures
        evidence.over(started, now) <==> {
            let silent = evidence.last_activity is Some && now > evidence.last_activity->0
                + 1_500_000_000;
            ||| evidence.finished
            ||| evidence.cancelled
            ||| silent && evidence.drop_performed
            ||| silent && evidence.pointer_released && evidence.send_requests > 0
            ||| now > started + 120_000_000_000
        },
{
}

/// The compositor refused the drag exactly when it cancelled it within a second and no
/// target ever took part.
pub proof fn refusal_is_early_and_without_a_target(
    evidence: EvidenceView,
    started: u64,
    now: u64,
)
    ensures
        evidence.refused(started, now) <==> evidence.cancelled && now < started + 1_000_000_000
            && !evidence.target_interacted && !evidence.drop_performed && evidence.send_requests
            == 0,
{
}

/// Each report of the compositor adds its own evidence, counts as activity, and takes
/// nothing back.
pub proof fn reports_add_to_the_evidence(
    evidence: EvidenceView,
    mime: Option<Seq<char>>,
    now: u64,
)
    requires
        evidence.valid(),
        evidence.send_requests < usize::MAX,
    ensures
        ({
            let after = evidence.with_send(now);
            &&& after.send_requests == evidence.send_requests + 1
            &&& after.post_drop_send_requests == evidence.post_drop_send_requests + (
            if evidence.drop_performed {
                1int
            } else {
                0int
            })
            &&& after.target_interacted
            &&& after.last_activity == Some(now)
            &&& after == (EvidenceView {
                send_requests: after.send_requests,
                post_drop_send_requests: after.post_drop_send_requests,
                target_interacted: true,
                last_activity: Some(now),
                ..evidence
            })
        }),
        ({
            let after = evidence.with_accept(mime, now);
            &&& mime is Some ==> after.accepted_mime == mime
            &&& mime is None ==> after.accepted_mime == evidence.accepted_mime
            &&& after == (EvidenceView {
                accepted_mime: after.accepted_mime,
                target_interacted: true,
                last_activity: Some(now),
                ..evidence
            })
        }),
        evidence.with_cancel(now) == (EvidenceView {
            cancelled: true,
            last_activity: Some(now),
            ..evidence
        }),
        evidence.with_drop(now) == (EvidenceView {
            drop_performed: true,
            last_activity: Some(now),
            ..evidence
        }),
        evidence.with_finish(now) == (EvidenceView {
            finished: true,
            last_activity: Some(now),
            ..evidence
        }),
        evidence.with_release(now).pointer_released,
        !evidence.pointer_released ==> evidence.with_release(now).last_activity == Some(now),
        evidence.pointer_released ==> evidence.with_release(now) == evidence,
{
}

/// The client lingers exactly when the drag has no reported end and a target was dropped on
/// or asked for data; it lingers for up to four seconds.
pub proof fn linger_is_for_drags_without_an_end(evidence: EvidenceView)
    ensures
        evidence.lingers() <==> !evidence.finished && !evidence.cancelled && (
        evidence.drop_performed || evidence.send_requests > 0),
        BRIDGE_LINGER_TIMEOUT == 4_000_000_000,
        DISPATCH_WAIT == 50_000_000,
{
}

/// The reason for the end of a linger names a finished drag before a cancelled one, and a
/// timeout only where there was neither.
pub proof fn linger_reasons_are_told_apart(evidence: EvidenceView)
    ensures
        evidence.finished ==> evidence.linger_end() == "dnd_finished"@,
        !evidence.finished && evidence.cancelled ==> evidence.linger_end() == "cancelled"@,
        !evidence.finished && !evidence.cancelled ==> evidence.linger_end() == "grace_timeout"@,
{
}

/// The counters of the report: requests before the drop are all requests without those
/// after it.
pub proof fn native_report_counts_every_request(evidence: EvidenceView)
    requires
        evidence.valid(),
        evidence.send_requests <= u32::MAX,
    ensures
        ({
            let stats = evidence.counters();
            &&& stats.selection_requests == evidence.send_requests
            &&& stats.pre_drop_data_requests + stats.post_drop_data_requests
                == evidence.send_requests
            &&& stats.post_drop_data_requests == evidence.post_drop_send_requests
            &&& stats.drop_target_data_requests == evidence.post_drop_send_requests
        }),
{
}

/// A native drag offers every form of the files, in their order; with a portal key it offers
/// the key first, under both of its names.
pub proof fn portal_key_is_offered_first(key: Seq<u8>, offers: Seq<OfferView>, i: int)
    requires
        0 <= i < offers.len(),
    ensures
        drag_offers(None, offers) == offers,
        drag_offers(Some(key), offers).len() == offers.len() + 2,
        drag_offers(Some(key), offers)[0] == (OfferView {
            mime_type: "application/vnd.portal.filetransfer"@,
            data: key,
        }),
        drag_offers(Some(key), offers)[1] == (OfferView {
            mime_type: "application/vnd.portal.files"@,
            data: key,
        }),
        drag_offers(Some(key), offers)[i + 2] == offers[i],
{
}

/// Reports about a data source change the drag of that source, and no other one.
pub proof fn native_events_of_other_sources_do_not_count(
    active: ActiveView,
    source: u32,
    change: spec_fn(PendingView) -> PendingView,
)
    ensures
        active.source == source ==> ended_if_own(Some(active), source) is None,
        active.source != source ==> ended_if_own(Some(active), source) == Some(active),
        active.source == source ==> changed_if_own(Some(active), source, change) == Some(
            ActiveView { source, pending: change(active.pending) },
        ),
        active.source != source ==> changed_if_own(Some(active), source, change) == Some(active),
        ended_if_own(None, source) is None,
        changed_if_own(None, source, change) is None,
{
}

/// A diagnostic of a drag names the drag, and then says what it says.
pub proof fn drag_lines_name_their_drag(drag_id: u64, message: Seq<char>)
    ensures
        ({
            let line = drag_line(drag_id, message);
            let id = decimal(drag_id as nat);
            &&& line.len() == 7 + id.len() + message.len()
            &&& line.subrange(5, 5 + id.len() as int) == id
            &&& line.skip(7 + id.len() as int) == message
        }),
{
    reveal_strlit("[dnd#");
    reveal_strlit("] ");
    let line = drag_line(drag_id, message);
    let id = decimal(drag_id as nat);
    assert(line.subrange(5, 5 + id.len() as int) =~= id);
    assert(line.skip(7 + id.len() as int) =~= message);
}

} // verus!
