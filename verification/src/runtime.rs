//! Seats, data devices and pointer serials of a native Wayland window.
//!
//! Wayland objects are named by their protocol ids.

use vstd::prelude::*;

use crate::data_device::PendingView;
use crate::request::{WaylandExternalDragError, WaylandExternalDragRequest};
use crate::state::{DragStateView, PreparedDrag, WaylandDragState};
use crate::xdnd::same_window;

verus! {

/// Evdev code of the left mouse button.
pub const BTN_LEFT: u32 = 0x110;

/// Why the Wayland connection is of no use.
#[derive(Debug)]
pub enum WaylandRuntimeError {
    RegistryInit(String),
    MissingDataDeviceManager(String),
    Dispatch(String),
}

impl WaylandRuntimeError {
    /// The text of the error.
    pub open spec fn text(self) -> Seq<char> {
        match self {
            WaylandRuntimeError::RegistryInit(err) => "Wayland registry init failed: "@ + err@,
            WaylandRuntimeError::MissingDataDeviceManager(err) =>
                "Wayland data-device manager is unavailable: "@ + err@,
            WaylandRuntimeError::Dispatch(err) => "Wayland event dispatch failed: "@ + err@,
        }
    }

    /// The text of the error.
    #[must_use]
    pub fn message(&self) -> (text: String)
        ensures
            text@ == self.text(),
    {
        match self {
            WaylandRuntimeError::RegistryInit(err) => {
                "Wayland registry init failed: ".to_owned().concat(err.as_str())
            },
            WaylandRuntimeError::MissingDataDeviceManager(err) => {
                "Wayland data-device manager is unavailable: ".to_owned().concat(err.as_str())
            },
            WaylandRuntimeError::Dispatch(err) => {
                "Wayland event dispatch failed: ".to_owned().concat(err.as_str())
            },
        }
    }
}

/// What a pointer does.
#[derive(Clone, Copy, Debug, PartialEq, Eq, Structural)]
pub enum PointerEventKind {
    Press { button: u32, serial: u32 },
    Release { button: u32 },
    Other,
}

/// What a pointer does on a surface.
#[derive(Clone, Copy, Debug, PartialEq, Eq, Structural)]
pub struct PointerEvent {
    pub surface: u32,
    pub kind: PointerEventKind,
}

/// What a window knows of its seat, and of the drag that is going on.
#[derive(Debug)]
pub struct WaylandRuntimeState {
    drag_state: WaylandDragState,
    origin_surface: u32,
    active_seat: Option<u32>,
    data_device: bool,
    pointer: bool,
}

/// The state as a mathematical value.
pub struct RuntimeView {
    pub drag_state: DragStateView,
    pub origin_surface: u32,
    pub active_seat: Option<u32>,
    pub data_device: bool,
    pub pointer: bool,
}

impl View for WaylandRuntimeState {
    type V = RuntimeView;

    closed spec fn view(&self) -> RuntimeView {
        RuntimeView {
            drag_state: self.drag_state@,
            origin_surface: self.origin_surface,
            active_seat: self.active_seat,
            data_device: self.data_device,
            pointer: self.pointer,
        }
    }
}

/// The serial after a pointer event: a left press sets it, a left release clears it,
/// events of other surfaces do not count.
pub open spec fn serial_after(serial: Option<u32>, origin: u32, event: PointerEvent) -> Option<u32> {
    if event.surface != origin {
        serial
    } else {
        match event.kind {
            PointerEventKind::Press { button, serial: pressed } => if button == BTN_LEFT {
                Some(pressed)
            } else {
                serial
            },
            PointerEventKind::Release { button } => if button == BTN_LEFT {
                None
            } else {
                serial
            },
            PointerEventKind::Other => serial,
        }
    }
}

/// The serial after some pointer events.
pub open spec fn serial_after_all(
    serial: Option<u32>,
    origin: u32,
    events: Seq<PointerEvent>,
) -> Option<u32>
    decreases events.len(),
{
    if events.len() == 0 {
        serial
    } else {
        serial_after(
            serial_after_all(serial, origin, events.drop_last()),
            origin,
            events.last(),
        )
    }
}

impl RuntimeView {
    /// The state with another serial.
    pub open spec fn with_serial(self, serial: Option<u32>) -> RuntimeView {
        RuntimeView {
            drag_state: DragStateView { pointer_button_serial: serial, ..self.drag_state },
            ..self
        }
    }

    /// The seat that a data device is made for, when there is none yet.
    pub open spec fn seat_to_use(self, first_seat: Option<u32>) -> Option<u32> {
        match self.active_seat {
            Some(seat) => Some(seat),
            None => first_seat,
        }
    }

    /// The state after a data device was looked for.
    pub open spec fn synced(self, first_seat: Option<u32>) -> RuntimeView {
        if self.data_device {
            self
        } else {
            match self.seat_to_use(first_seat) {
                Some(seat) => RuntimeView {
                    drag_state: self.drag_state.with_seat(true).with_data_device(true),
                    active_seat: Some(seat),
                    data_device: true,
                    ..self
                },
                None => RuntimeView {
                    drag_state: self.drag_state.with_seat(false).with_data_device(false),
                    ..self
                },
            }
        }
    }

    /// The state after a seat appeared.
    pub open spec fn with_new_seat(self, seat: u32) -> RuntimeView {
        match self.active_seat {
            Some(_) => self,
            None => RuntimeView {
                drag_state: self.drag_state.with_seat(true),
                active_seat: Some(seat),
                ..self
            },
        }
    }

    /// The state after a seat went away.
    pub open spec fn without_seat(self, seat: u32) -> RuntimeView {
        if self.active_seat == Some(seat) {
            RuntimeView {
                drag_state: self.drag_state.with_seat(false).with_data_device(false),
                active_seat: None,
                data_device: false,
                pointer: false,
                ..self
            }
        } else {
            self
        }
    }
}

impl WaylandRuntimeState {
    /// A window whose surface is there.
    pub fn new(origin_surface: u32) -> (state: Self)
        ensures
            state@ == (RuntimeView {
                drag_state: DragStateView {
                    active: None,
                    has_surface: true,
                    has_seat: false,
                    has_data_device: false,
                    pointer_button_serial: None,
                },
                origin_surface,
                active_seat: None,
                data_device: false,
                pointer: false,
            }),
    {
        let mut drag_state = WaylandDragState::new();
        let _ = drag_state.note_surface_available(true);
        WaylandRuntimeState {
            drag_state,
            origin_surface,
            active_seat: None,
            data_device: false,
            pointer: false,
        }
    }

    /// The drag that is going on, and what it needs.
    pub fn drag_state(&self) -> (state: &WaylandDragState)
        ensures
            state@ == self@.drag_state,
    {
        &self.drag_state
    }

    /// The drag that is going on, and what it needs.
    pub fn drag_state_mut(&mut self) -> (state: &mut WaylandDragState)
        ensures
            state@ == old(self)@.drag_state,
            final(self)@ == (RuntimeView { drag_state: final(state)@, ..old(self)@ }),
    {
        &mut self.drag_state
    }

    /// Whether a drag may start.
    pub fn can_start_external_drag(&self) -> (ready: bool)
        ensures
            ready == (self@.drag_state.ready() && self@.data_device),
    {
        self.drag_state.can_start_drag() && self.data_device
    }

    /// Look for a data device. `first_seat` is the first seat that the compositor
    /// names. Gives the seat that a data device is to be made for, and the data
    /// source of a drag that ended for want of a seat.
    pub fn sync_data_device_for_active_seat(&mut self, first_seat: Option<u32>) -> (result: (
        Option<u32>,
        Option<u32>,
    ))
        ensures
            final(self)@ == old(self)@.synced(first_seat),
            result.0 == (if old(self)@.data_device {
                None
            } else {
                old(self)@.seat_to_use(first_seat)
            }),
            result.1 == (if !old(self)@.data_device && old(self)@.seat_to_use(first_seat) is None {
                old(self)@.drag_state.source()
            } else {
                None
            }),
    {
        if self.data_device {
            return (None, None);
        }
        let seat: Option<u32> = match self.active_seat {
            Some(seat) => Some(seat),
            None => first_seat,
        };
        match seat {
            Some(seat) => {
                self.active_seat = Some(seat);
                self.data_device = true;
                let _ = self.drag_state.note_seat_available(true);
                let _ = self.drag_state.note_data_device_available(true);
                (Some(seat), None)
            },
            None => {
                let dropped: Option<u32> = self.drag_state.note_seat_available(false);
                let _ = self.drag_state.note_data_device_available(false);
                (None, dropped)
            },
        }
    }

    /// Check what a drag needs, after a data device was looked for.
    ///
    /// # Errors
    ///
    /// Fails when a part is missing, or when the request holds no forms.
    pub fn prepare_external_drag(&self, request: WaylandExternalDragRequest) -> (prepared: Result<
        PreparedDrag,
        WaylandExternalDragError,
    >)
        ensures
            !self@.data_device ==> prepared == Err::<PreparedDrag, WaylandExternalDragError>(
                WaylandExternalDragError::MissingSeat,
            ),
            self@.data_device && self@.drag_state.missing() is Some ==> prepared == Err::<
                PreparedDrag,
                WaylandExternalDragError,
            >(self@.drag_state.missing()->0),
            self@.data_device && self@.drag_state.missing() is None && request@.offers.len() == 0
                ==> prepared == Err::<PreparedDrag, WaylandExternalDragError>(
                WaylandExternalDragError::EmptyOfferSet,
            ),
            prepared is Ok == (self@.data_device && self@.drag_state.missing() is None
                && request@.offers.len() > 0),
            prepared matches Ok(drag) ==> Some(drag.serial)
                == self@.drag_state.pointer_button_serial && drag.pending@ == (PendingView {
                offers: request@.offers,
                accepted_mime: None,
                sent_mimes: seq![],
                drop_performed: false,
                finished: false,
            }),
    {
        if !self.data_device {
            return Err(WaylandExternalDragError::MissingSeat);
        }
        self.drag_state.prepare_drag(request)
    }

    /// Take that a seat appeared. The first one is used.
    pub fn new_seat(&mut self, seat: u32)
        ensures
            final(self)@ == old(self)@.with_new_seat(seat),
    {
        if self.active_seat.is_none() {
            self.active_seat = Some(seat);
            let _ = self.drag_state.note_seat_available(true);
        }
    }

    /// Whether a pointer is to be asked for when a seat gains one.
    pub fn wants_pointer(&self) -> (wanted: bool)
        ensures
            wanted == !self@.pointer,
    {
        !self.pointer
    }

    /// Take that a seat gained a pointer; `pointer` says whether one was given out.
    pub fn new_pointer_capability(&mut self, pointer: bool)
        ensures
            final(self)@ == (RuntimeView {
                drag_state: old(self)@.drag_state.with_seat(true),
                pointer: old(self)@.pointer || pointer,
                ..old(self)@
            }),
    {
        self.pointer = self.pointer || pointer;
        let _ = self.drag_state.note_seat_available(true);
    }

    /// Take that a seat lost its pointer.
    pub fn remove_pointer_capability(&mut self)
        ensures
            final(self)@ == (RuntimeView { pointer: false, ..old(self)@.with_serial(None) }),
    {
        self.pointer = false;
        self.drag_state.clear_pointer_button_serial();
    }

    /// Take that a seat went away. Gives the data source of a drag that ended with
    /// it.
    pub fn remove_seat(&mut self, seat: u32) -> (dropped: Option<u32>)
        ensures
            final(self)@ == old(self)@.without_seat(seat),
            dropped == (if old(self)@.active_seat == Some(seat) {
                old(self)@.drag_state.source()
            } else {
                None
            }),
    {
        if same_window(self.active_seat, Some(seat)) {
            self.active_seat = None;
            self.data_device = false;
            self.pointer = false;
            let dropped: Option<u32> = self.drag_state.note_seat_available(false);
            let _ = self.drag_state.note_data_device_available(false);
            dropped
        } else {
            None
        }
    }

    /// Take a frame of pointer events: the serial of the last left press on the
    /// window is the one that a drag may use.
    pub fn pointer_frame(&mut self, events: &Vec<PointerEvent>)
        ensures
            final(self)@ == old(self)@.with_serial(
                serial_after_all(
                    old(self)@.drag_state.pointer_button_serial,
                    old(self)@.origin_surface,
                    events@,
                ),
            ),
    {
        let ghost before = self@;
        let ghost origin = self.origin_surface;
        let ghost serial = self@.drag_state.pointer_button_serial;
        assert(events@.take(0) =~= seq![]);
        assert(before == before.with_serial(serial));
        for i in 0..events.len()
            invariant
                before.drag_state.pointer_button_serial == serial,
                before.origin_surface == origin,
                self.origin_surface == origin,
                self@ == before.with_serial(
                    serial_after_all(serial, origin, events@.take(i as int)),
                ),
        {
            assert(events@.take(i + 1).drop_last() =~= events@.take(i as int));
            assert(events@.take(i + 1).last() == events@[i as int]);
            let event: PointerEvent = events[i];
            if event.surface == self.origin_surface {
                match event.kind {
                    PointerEventKind::Press { button, serial: pressed } => {
                        if button == BTN_LEFT {
                            self.drag_state.note_pointer_button_serial(pressed);
                        }
                    },
                    PointerEventKind::Release { button } => {
                        if button == BTN_LEFT {
                            self.drag_state.clear_pointer_button_serial();
                        }
                    },
                    PointerEventKind::Other => {},
                }
            }
        }
        assert(events@.take(events@.len() as int) =~= events@);
    }
}

/// A serial that a drag may use stems from a left press on the window that no left
/// release on the window followed.
pub proof fn serial_comes_from_an_unreleased_press(
    origin: u32,
    events: Seq<PointerEvent>,
    serial: u32,
)
    requires
        serial_after_all(None, origin, events) == Some(serial),
    ensures
        exists|i: int|
            0 <= i < events.len() && (#[trigger] events[i]) == (PointerEvent {
                surface: origin,
                kind: PointerEventKind::Press { button: BTN_LEFT, serial },
            }) && forall|k: int|
                i < k < events.len() ==> (#[trigger] events[k]) != (PointerEvent {
                    surface: origin,
                    kind: PointerEventKind::Release { button: BTN_LEFT },
                }),
    decreases events.len(),
{
    let last = events.last();
    let rest = events.drop_last();
    let n = events.len() - 1;
    if last == (PointerEvent {
        surface: origin,
        kind: PointerEventKind::Press { button: BTN_LEFT, serial },
    }) {
        assert(events[n] == last);
    } else {
        serial_comes_from_an_unreleased_press(origin, rest, serial);
        let i = choose|i: int|
            0 <= i < rest.len() && (#[trigger] rest[i]) == (PointerEvent {
                surface: origin,
                kind: PointerEventKind::Press { button: BTN_LEFT, serial },
            }) && forall|k: int|
                i < k < rest.len() ==> (#[trigger] rest[k]) != (PointerEvent {
                    surface: origin,
                    kind: PointerEventKind::Release { button: BTN_LEFT },
                });
        assert(events[i] == rest[i]);
        assert forall|k: int| i < k < events.len() implies (#[trigger] events[k]) != (
        PointerEvent {
            surface: origin,
            kind: PointerEventKind::Release { button: BTN_LEFT },
        }) by {
            if k < n {
                assert(events[k] == rest[k]);
            }
        }
    }
}

/// Whether a pointer event is a press or a release of the left button on the window.
pub open spec fn is_left_button(origin: u32, event: PointerEvent) -> bool {
    event.surface == origin && (match event.kind {
        PointerEventKind::Press { button, serial: _ } => button == 0x110,
        PointerEventKind::Release { button } => button == 0x110,
        PointerEventKind::Other => false,
    })
}

/// The last press or release of the left button on the window decides: a press leaves its
/// serial, a release leaves none. Whatever else the pointer does changes nothing, so a
/// gesture that presses and then moves still has its serial.
pub proof fn last_left_button_event_decides_the_serial(
    serial: Option<u32>,
    origin: u32,
    events: Seq<PointerEvent>,
    i: int,
)
    requires
        0 <= i < events.len(),
        is_left_button(origin, events[i]),
        forall|j: int| i < j < events.len() ==> !is_left_button(origin, #[trigger] events[j]),
    ensures
        serial_after_all(serial, origin, events) == (match events[i].kind {
            PointerEventKind::Press { button: _, serial: pressed } => Some(pressed),
            _ => None,
        }),
    decreases events.len(),
{
    if i < events.len() - 1 {
        let rest = events.drop_last();
        assert(rest[i] == events[i]);
        assert forall|j: int| i < j < rest.len() implies !is_left_button(
            origin,
            #[trigger] rest[j],
        ) by {
            assert(rest[j] == events[j]);
        }
        last_left_button_event_decides_the_serial(serial, origin, rest, i);
        assert(!is_left_button(origin, events[events.len() - 1]));
    }
}

/// Without a press or a release of the left button on the window the serial stays.
pub proof fn other_pointer_events_keep_the_serial(
    serial: Option<u32>,
    origin: u32,
    events: Seq<PointerEvent>,
)
    requires
        forall|j: int| 0 <= j < events.len() ==> !is_left_button(origin, #[trigger] events[j]),
    ensures
        serial_after_all(serial, origin, events) == serial,
    decreases events.len(),
{
    if events.len() > 0 {
        let rest = events.drop_last();
        assert forall|j: int| 0 <= j < rest.len() implies !is_left_button(
            origin,
            #[trigger] rest[j],
        ) by {
            assert(rest[j] == events[j]);
        }
        other_pointer_events_keep_the_serial(serial, origin, rest);
        assert(!is_left_button(origin, events[events.len() - 1]));
    }
}

/// A data device is made for the seat in use, else for the first seat that there is. With
/// it and with a press of the button on the window, a drag may start.
pub proof fn seat_and_press_let_a_drag_start(
    state: RuntimeView,
    first_seat: Option<u32>,
    serial: u32,
)
    requires
        !state.data_device,
        state.drag_state.has_surface,
        state.drag_state.active is None,
    ensures
        ({
            let after = state.synced(first_seat);
            let pressed = after.with_serial(Some(serial));
            let seat = if state.active_seat is Some {
                state.active_seat
            } else {
                first_seat
            };
            &&& seat is Some ==> after.active_seat == seat && after.data_device
                && after.drag_state.has_seat && after.drag_state.has_data_device
                && pressed.drag_state.ready() && pressed.drag_state.pointer_button_serial == Some(
                serial,
            )
            &&& seat is None ==> !after.data_device && after.active_seat is None
                && !after.drag_state.has_seat && !after.drag_state.has_data_device
                && !pressed.drag_state.ready()
            &&& after.pointer == state.pointer
            &&& after.origin_surface == state.origin_surface
        }),
{
}

/// A data device that is there is kept.
pub proof fn data_device_is_made_once(state: RuntimeView, first_seat: Option<u32>)
    requires
        state.data_device,
    ensures
        state.synced(first_seat) == state,
{
}

/// The first seat that appears is used, and later ones are not. When the seat in use goes
/// away, its data device, its pointer, its press and its drag go with it; other seats may go
/// as they like.
pub proof fn one_seat_is_used_at_a_time(state: RuntimeView, seat: u32)
    ensures
        state.active_seat is None ==> state.with_new_seat(seat) == (RuntimeView {
            active_seat: Some(seat),
            drag_state: DragStateView { has_seat: true, ..state.drag_state },
            ..state
        }),
        state.active_seat is Some ==> state.with_new_seat(seat) == state,
        state.active_seat == Some(seat) ==> ({
            let after = state.without_seat(seat);
            &&& after.active_seat is None
            &&& !after.data_device
            &&& !after.pointer
            &&& !after.drag_state.has_seat
            &&& !after.drag_state.has_data_device
            &&& after.drag_state.pointer_button_serial is None
            &&& after.drag_state.active is None
            &&& after.drag_state.has_surface == state.drag_state.has_surface
        }),
        state.active_seat != Some(seat) ==> state.without_seat(seat) == state,
{
}

} // verus!
