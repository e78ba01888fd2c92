//! When a native Wayland drag may start, and which events belong to it.
//!
//! A drag needs a surface, a seat with a data device, and the serial of the button
//! press that began the gesture. Data sources are named by their protocol ids.

use vstd::prelude::*;

use crate::data_device::{
    offered_bytes, text_of, ActiveView, ActiveWaylandDrag, PendingView, PendingWaylandDrag,
};
use crate::request::{WaylandExternalDragError, WaylandExternalDragRequest};

verus! {

/// What a native Wayland drag source has, and the drag that is going on.
#[derive(Debug)]
pub struct WaylandDragState {
    active: Option<ActiveWaylandDrag>,
    has_surface: bool,
    has_seat: bool,
    has_data_device: bool,
    pointer_button_serial: Option<u32>,
}

/// The state as a mathematical value.
pub struct DragStateView {
    pub active: Option<ActiveView>,
    pub has_surface: bool,
    pub has_seat: bool,
    pub has_data_device: bool,
    pub pointer_button_serial: Option<u32>,
}

/// The value of an optional drag.
pub open spec fn active_view(active: Option<ActiveWaylandDrag>) -> Option<ActiveView> {
    match active {
        Some(drag) => Some(drag@),
        None => None,
    }
}

impl View for WaylandDragState {
    type V = DragStateView;

    closed spec fn view(&self) -> DragStateView {
        DragStateView {
            active: active_view(self.active),
            has_surface: self.has_surface,
            has_seat: self.has_seat,
            has_data_device: self.has_data_device,
            pointer_button_serial: self.pointer_button_serial,
        }
    }
}

impl DragStateView {
    /// Whether a drag may start.
    pub open spec fn ready(self) -> bool {
        self.has_surface && self.has_seat && self.has_data_device
            && self.pointer_button_serial is Some && self.active is None
    }

    /// The data source of the drag that is going on.
    pub open spec fn source(self) -> Option<u32> {
        match self.active {
            Some(drag) => Some(drag.source),
            None => None,
        }
    }

    /// What is missing for a drag, if anything is.
    pub open spec fn missing(self) -> Option<WaylandExternalDragError> {
        if !self.has_surface {
            Some(WaylandExternalDragError::MissingSurface)
        } else if !self.has_seat || !self.has_data_device {
            Some(WaylandExternalDragError::MissingSeat)
        } else if self.pointer_button_serial is None {
            Some(WaylandExternalDragError::MissingPointerButtonSerial)
        } else {
            None
        }
    }

    /// The state after a change to the drag of a data source.
    pub open spec fn with_pending(self, source: u32, pending: PendingView) -> DragStateView {
        if self.source() == Some(source) {
            DragStateView { active: Some(ActiveView { source, pending }), ..self }
        } else {
            self
        }
    }

    /// The state after the drag of a data source ended.
    pub open spec fn without(self, source: u32) -> DragStateView {
        if self.source() == Some(source) {
            DragStateView { active: None, ..self }
        } else {
            self
        }
    }

    /// The state after the surface appeared or went away.
    pub open spec fn with_surface(self, available: bool) -> DragStateView {
        if available {
            DragStateView { has_surface: true, ..self }
        } else {
            DragStateView {
                has_surface: false,
                pointer_button_serial: None,
                active: None,
                ..self
            }
        }
    }

    /// The state after the seat appeared or went away.
    pub open spec fn with_seat(self, available: bool) -> DragStateView {
        if available {
            DragStateView { has_seat: true, ..self }
        } else {
            DragStateView { has_seat: false, pointer_button_serial: None, active: None, ..self }
        }
    }

    /// The state after the data device appeared or went away.
    pub open spec fn with_data_device(self, available: bool) -> DragStateView {
        if available {
            DragStateView { has_data_device: true, ..self }
        } else {
            DragStateView { has_data_device: false, active: None, ..self }
        }
    }
}

/// A drag that may start.
#[derive(Debug)]
pub struct PreparedDrag {
    /// Serial of the button press that began the gesture.
    pub serial: u32,
    pub pending: PendingWaylandDrag,
}

impl Default for WaylandDragState {
    fn default() -> (state: Self)
        ensures
            state@ == (DragStateView {
                active: None,
                has_surface: false,
                has_seat: false,
                has_data_device: false,
                pointer_button_serial: None,
            }),
    {
        WaylandDragState::new()
    }
}

impl WaylandDragState {
    /// Nothing is there yet.
    pub fn new() -> (state: Self)
        ensures
            state@ == (DragStateView {
                active: None,
                has_surface: false,
                has_seat: false,
                has_data_device: false,
                pointer_button_serial: None,
            }),
    {
        WaylandDragState {
            active: None,
            has_surface: false,
            has_seat: false,
            has_data_device: false,
            pointer_button_serial: None,
        }
    }

    fn drop_active(&mut self) -> (dropped: Option<u32>)
        ensures
            dropped == old(self)@.source(),
            final(self)@ == (DragStateView { active: None, ..old(self)@ }),
    {
        match self.active.take() {
            Some(drag) => Some(drag.source()),
            None => None,
        }
    }

    /// Note whether the surface is there. Without it, a drag is over: its data
    /// source is given back, to be destroyed.
    pub fn note_surface_available(&mut self, available: bool) -> (dropped: Option<u32>)
        ensures
            final(self)@ == old(self)@.with_surface(available),
            dropped == (if available {
                None
            } else {
                old(self)@.source()
            }),
    {
        self.has_surface = available;
        if available {
            None
        } else {
            self.pointer_button_serial = None;
            self.drop_active()
        }
    }

    /// Note whether the seat is there. Without it, a drag is over: its data source
    /// is given back, to be destroyed.
    pub fn note_seat_available(&mut self, available: bool) -> (dropped: Option<u32>)
        ensures
            final(self)@ == old(self)@.with_seat(available),
            dropped == (if available {
                None
            } else {
                old(self)@.source()
            }),
    {
        self.has_seat = available;
        if available {
            None
        } else {
            self.pointer_button_serial = None;
            self.drop_active()
        }
    }

    /// Note whether the data device is there. Without it, a drag is over: its data
    /// source is given back, to be destroyed.
    pub fn note_data_device_available(&mut self, available: bool) -> (dropped: Option<u32>)
        ensures
            final(self)@ == old(self)@.with_data_device(available),
            dropped == (if available {
                None
            } else {
                old(self)@.source()
            }),
    {
        self.has_data_device = available;
        if available {
            None
        } else {
            self.drop_active()
        }
    }

    /// Note the serial of a button press.
    pub fn note_pointer_button_serial(&mut self, serial: u32)
        ensures
            final(self)@ == (DragStateView { pointer_button_serial: Some(serial), ..old(self)@ }),
    {
        self.pointer_button_serial = Some(serial);
    }

    /// Forget the serial: the button was released.
    pub fn clear_pointer_button_serial(&mut self)
        ensures
            final(self)@ == (DragStateView { pointer_button_serial: None, ..old(self)@ }),
    {
        self.pointer_button_serial = None;
    }

    /// Whether a drag may start.
    pub fn can_start_drag(&self) -> (ready: bool)
        ensures
            ready == self@.ready(),
    {
        self.has_surface && self.has_seat && self.has_data_device
            && self.pointer_button_serial.is_some() && self.active.is_none()
    }

    /// Check what a drag needs. The caller then creates the data source, starts the
    /// drag with the serial, and hands both back to [`Self::start_drag`].
    ///
    /// # Errors
    ///
    /// Fails when the surface, the seat, the data device or the serial is missing,
    /// or when the request holds no forms.
    pub fn prepare_drag(&self, request: WaylandExternalDragRequest) -> (prepared: Result<
        PreparedDrag,
        WaylandExternalDragError,
    >)
        ensures
            self@.missing() is Some ==> prepared == Err::<PreparedDrag, WaylandExternalDragError>(
                self@.missing()->0,
            ),
            self@.missing() is None && request@.offers.len() == 0 ==> prepared == Err::<
                PreparedDrag,
                WaylandExternalDragError,
            >(WaylandExternalDragError::EmptyOfferSet),
            prepared is Ok == (self@.missing() is None && request@.offers.len() > 0),
            prepared matches Ok(drag) ==> Some(drag.serial) == self@.pointer_button_serial
                && drag.pending@ == (PendingView {
                offers: request@.offers,
                accepted_mime: None,
                sent_mimes: seq![],
                drop_performed: false,
                finished: false,
            }),
    {
        if !self.has_surface {
            return Err(WaylandExternalDragError::MissingSurface);
        }
        if !self.has_seat || !self.has_data_device {
            return Err(WaylandExternalDragError::MissingSeat);
        }
        let serial: u32 = match self.pointer_button_serial {
            Some(serial) => serial,
            None => {
                return Err(WaylandExternalDragError::MissingPointerButtonSerial);
            },
        };
        match PendingWaylandDrag::from_request(request) {
            Ok(pending) => Ok(PreparedDrag { serial, pending }),
            Err(error) => Err(error),
        }
    }

    /// Note that a prepared drag was started with a data source. The data source of
    /// a drag that it replaces is given back, to be destroyed.
    pub fn start_drag(&mut self, source: u32, prepared: PreparedDrag) -> (replaced: Option<u32>)
        ensures
            replaced == old(self)@.source(),
            final(self)@ == (DragStateView {
                active: Some(ActiveView { source, pending: prepared.pending@ }),
                ..old(self)@
            }),
    {
        let replaced: Option<u32> = self.drop_active();
        self.active = Some(ActiveWaylandDrag::create(source, prepared.pending));
        replaced
    }

    /// Take the MIME type that a target accepts.
    pub fn handle_accept_mime(&mut self, source: u32, mime_type: Option<String>)
        ensures
            final(self)@ == (match old(self)@.active {
                Some(drag) => old(self)@.with_pending(
                    source,
                    PendingView { accepted_mime: text_of(mime_type), ..drag.pending },
                ),
                None => old(self)@,
            }),
    {
        let taken = self.active.take();
        if let Some(drag) = taken {
            let mut drag = drag;
            if drag.matches_source(source) {
                drag.note_accepted_mime(mime_type);
            }
            self.active = Some(drag);
        }
    }

    /// The bytes that answer a request for a MIME type.
    pub fn payload_for_send(&self, source: u32, mime_type: &str) -> (payload: Option<Vec<u8>>)
        ensures
            match self@.active {
                Some(drag) => if drag.source == source {
                    &&& payload is Some == offered_bytes(drag.pending.offers, mime_type@) is Some
                    &&& payload matches Some(bytes) ==> Some(bytes@) == offered_bytes(
                        drag.pending.offers,
                        mime_type@,
                    )
                } else {
                    payload is None
                },
                None => payload is None,
            },
    {
        match &self.active {
            Some(drag) => {
                if drag.matches_source(source) {
                    match drag.payload_for_mime(mime_type) {
                        Some(bytes) => Some(slice_bytes(bytes)),
                        None => None,
                    }
                } else {
                    None
                }
            },
            None => None,
        }
    }

    /// Take that a request for a MIME type was answered; `written` says whether the
    /// pipe took the bytes.
    pub fn handle_send_request(&mut self, source: u32, mime_type: &str, written: bool)
        ensures
            final(self)@ == (match old(self)@.active {
                Some(drag) => old(self)@.with_pending(
                    source,
                    drag.pending.after_write(mime_type@, written),
                ),
                None => old(self)@,
            }),
    {
        let taken = self.active.take();
        if let Some(drag) = taken {
            let mut drag = drag;
            if drag.matches_source(source) {
                drag.note_written(mime_type, written);
            }
            self.active = Some(drag);
        }
    }

    /// Take that the drop was performed.
    pub fn handle_drop_performed(&mut self, source: u32)
        ensures
            final(self)@ == (match old(self)@.active {
                Some(drag) => old(self)@.with_pending(
                    source,
                    PendingView { drop_performed: true, ..drag.pending },
                ),
                None => old(self)@,
            }),
    {
        let taken = self.active.take();
        if let Some(drag) = taken {
            let mut drag = drag;
            if drag.matches_source(source) {
                drag.note_drop_performed();
            }
            self.active = Some(drag);
        }
    }

    /// Take that the target is done. Gives whether the data source is to be
    /// destroyed.
    pub fn handle_finished(&mut self, source: u32) -> (destroy: bool)
        ensures
            final(self)@ == old(self)@.without(source),
            destroy == (old(self)@.source() == Some(source)),
    {
        match self.active.take() {
            Some(drag) => {
                if drag.matches_source(source) {
                    true
                } else {
                    self.active = Some(drag);
                    false
                }
            },
            None => false,
        }
    }

    /// Take that the drag was cancelled. Gives whether the data source is to be
    /// destroyed.
    pub fn handle_cancelled(&mut self, source: u32) -> (destroy: bool)
        ensures
            final(self)@ == old(self)@.without(source),
            destroy == (old(self)@.source() == Some(source)),
    {
        match self.active.take() {
            Some(drag) => {
                if drag.matches_source(source) {
                    true
                } else {
                    self.active = Some(drag);
                    false
                }
            },
            None => false,
        }
    }
}

/// Copy a slice of bytes.
pub fn slice_bytes(bytes: &[u8]) -> (copy: Vec<u8>)
    ensures
        copy@ == bytes@,
{
    let mut out: Vec<u8> = Vec::new();
    for i in 0..bytes.len()
        invariant
            out@ == bytes@.take(i as int),
    {
        out.push(bytes[i]);
        assert(bytes@.take(i + 1) == bytes@.take(i as int).push(bytes@[i as int]));
    }
    assert(bytes@.take(bytes@.len() as int) == bytes@);
    out
}

/// A drag may start exactly when nothing that it needs is missing and no other
/// drag is going on.
pub proof fn ready_means_nothing_is_missing(state: DragStateView)
    ensures
        state.ready() <==> state.missing() is None && state.active is None,
{
}

/// Events of another data source leave the state as it is.
pub proof fn foreign_sources_change_nothing(
    state: DragStateView,
    source: u32,
    pending: PendingView,
)
    requires
        state.source() != Some(source),
    ensures
        state.with_pending(source, pending) == state,
        state.without(source) == state,
{
}

/// Without a surface, a seat or a data device there is no drag, and none may start.
pub proof fn losing_a_part_ends_the_drag(state: DragStateView)
    ensures
        state.with_surface(false).active is None,
        !state.with_surface(false).ready(),
        state.with_seat(false).active is None,
        !state.with_seat(false).ready(),
        state.with_data_device(false).active is None,
        !state.with_data_device(false).ready(),
{
}

/// Once a drag finished or was cancelled, the next one may start if the button is
/// still known to be pressed and nothing went away.
pub proof fn next_drag_may_follow(state: DragStateView, source: u32)
    requires
        state.source() == Some(source),
        state.missing() is None,
    ensures
        state.without(source).ready(),
{
}

/// A drag may start exactly when there is a surface, a seat with a data device, a press of
/// the button, and no other drag.
pub proof fn drag_needs_all_parts(state: DragStateView)
    ensures
        state.ready() <==> state.has_surface && state.has_seat && state.has_data_device
            && state.pointer_button_serial is Some && state.active is None,
{
}

/// What is missing is named: a surface first, then the seat or the data device, then the
/// press of the button; and nothing is missing exactly when all are there.
pub proof fn missing_part_is_named(state: DragStateView)
    ensures
        state.missing() == Some(WaylandExternalDragError::MissingSurface) <==> !state.has_surface,
        state.missing() == Some(WaylandExternalDragError::MissingSeat) <==> state.has_surface && !(
        state.has_seat && state.has_data_device),
        state.missing() == Some(WaylandExternalDragError::MissingPointerButtonSerial)
            <==> state.has_surface && state.has_seat && state.has_data_device
            && state.pointer_button_serial is None,
        state.missing() is None <==> state.has_surface && state.has_seat && state.has_data_device
            && state.pointer_button_serial is Some,
{
}

/// A part that appears is there, and changes nothing else. A part that goes away ends the
/// drag; the surface and the seat also take the press of the button with them, the data
/// device does not.
pub proof fn parts_come_and_go(state: DragStateView)
    ensures
        state.with_surface(true) == (DragStateView { has_surface: true, ..state }),
        state.with_seat(true) == (DragStateView { has_seat: true, ..state }),
        state.with_data_device(true) == (DragStateView { has_data_device: true, ..state }),
        state.with_surface(false) == (DragStateView {
            has_surface: false,
            pointer_button_serial: None,
            active: None,
            ..state
        }),
        state.with_seat(false) == (DragStateView {
            has_seat: false,
            pointer_button_serial: None,
            active: None,
            ..state
        }),
        state.with_data_device(false) == (DragStateView {
            has_data_device: false,
            active: None,
            ..state
        }),
{
}

/// Events of the data source of the drag change its drag and end it; the rest of the state
/// stays.
pub proof fn own_source_is_heard(state: DragStateView, drag: ActiveView, pending: PendingView)
    requires
        state.active == Some(drag),
    ensures
        state.source() == Some(drag.source),
        state.with_pending(drag.source, pending) == (DragStateView {
            active: Some(ActiveView { source: drag.source, pending }),
            ..state
        }),
        state.without(drag.source) == (DragStateView { active: None, ..state }),
        forall|other: u32| other != drag.source ==> #[trigger] state.without(other) == state,
        forall|other: u32|
            other != drag.source ==> #[trigger] state.with_pending(other, pending) == state,
{
}

} // verus!
