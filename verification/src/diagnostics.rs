//! The texts of drag diagnostics.

use vstd::prelude::*;

use crate::backend::{
    emit_backend_event, emit_backend_lifecycle_event, emit_terminal_lifecycle, terminal_phase,
    BackendBus, BusView, ExternalDragLifecycleEvent, ExternalDragLifecyclePhase,
};
use crate::dnd::{DragPhase, DragSessionReport, DragSessionStats, DragTargetKind};
use crate::native::{drag_line, drag_line_text};
use crate::platform::{DragBackendPlan, DragEndpointKind, DragRoute};
use crate::target::{BridgeRelease, Probe};
use crate::text::{
    chars_of, decimal, decimal_text, hexadecimal, hexadecimal_text, joined, join_texts, lossy_text,
    quote_text, quoted, read_lossy, signed_decimal, signed_decimal_text, texts, truth, truth_text,
};
use crate::xdnd::{request_phase, XdndNote};

verus! {

// ---------------------------------------------------------------------------
// Windows and atoms
// ---------------------------------------------------------------------------

/// A text with `/` for every zero character.
pub open spec fn without_zeros(text: Seq<char>) -> Seq<char> {
    Seq::new(
        text.len(),
        |i: int|
            if text[i] == '\0' {
                '/'
            } else {
                text[i]
            },
    )
}

/// A text without the `/` characters at its end.
pub open spec fn without_trailing_slashes(text: Seq<char>) -> Seq<char>
    decreases text.len(),
{
    if text.len() > 0 && text.last() == '/' {
        without_trailing_slashes(text.drop_last())
    } else {
        text
    }
}

/// The shown form of a text property: its parts separated by `/`.
pub fn property_line(text: &str) -> (shown: String)
    ensures
        shown@ == without_trailing_slashes(without_zeros(text@)),
{
    let chars = chars_of(text);
    let ghost whole = without_zeros(text@);
    let mut end: usize = chars.len();
    assert(whole.take(end as int) =~= whole);
    while end > 0 && (chars[end - 1] == '\0' || chars[end - 1] == '/')
        invariant
            chars@ == text@,
            whole == without_zeros(text@),
            end <= chars@.len(),
            without_trailing_slashes(whole) == without_trailing_slashes(whole.take(end as int)),
        decreases end,
    {
        assert(whole.take(end as int).last() == '/');
        assert(whole.take(end as int).drop_last() =~= whole.take(end - 1));
        end = end - 1;
    }
    proof {
        if end > 0 {
            assert(whole.take(end as int).last() != '/');
        }
    }
    let mut shown = String::new();
    for i in 0..end
        invariant
            chars@ == text@,
            end <= chars@.len(),
            whole == without_zeros(text@),
            shown@ == whole.take(i as int),
    {
        let c: char = if chars[i] == '\0' {
            '/'
        } else {
            chars[i]
        };
        shown.push(c);
        assert(whole.take(i + 1) =~= whole.take(i as int).push(c));
    }
    shown
}

/// The shown form of a text property, where the property has a value.
pub fn property_text(value: &Vec<u8>) -> (shown: Option<String>)
    ensures
        shown is Some == (value@.len() > 0),
        shown matches Some(text) ==> text@ == without_trailing_slashes(
            without_zeros(lossy_text(value@)),
        ),
{
    if value.len() == 0 {
        return None;
    }
    let text = read_lossy(value);
    Some(property_line(text.as_str()))
}

/// A window in a diagnostic, with its class and title in quotes.
pub open spec fn window_line(window: u32, class: Seq<char>, title: Seq<char>) -> Seq<char> {
    "0x"@ + hexadecimal(window as nat) + " class="@ + class + " title="@ + title
}

/// A window in a diagnostic, with its class and title in quotes.
pub fn window_line_text(window: u32, class: &str, title: &str) -> (line: String)
    ensures
        line@ == window_line(window, class@, title@),
{
    let id = hexadecimal_text(window);
    "0x".to_owned().concat(id.as_str()).concat(" class=").concat(class).concat(" title=").concat(
        title,
    )
}

/// A text, or a question mark.
pub open spec fn or_unknown(text: Option<Seq<char>>) -> Seq<char> {
    match text {
        Some(chars) => chars,
        None => "?"@,
    }
}

/// The text of an optional string slice.
pub open spec fn slice_text(text: Option<&str>) -> Option<Seq<char>> {
    match text {
        Some(chars) => Some(chars@),
        None => None,
    }
}

/// A window in a diagnostic. `title` is the UTF-8 title of the window, `old_title` the
/// other one.
pub fn window_diagnostics(
    window: u32,
    class: Option<&str>,
    title: Option<&str>,
    old_title: Option<&str>,
) -> (line: String)
    ensures
        line@ == window_line(
            window,
            quoted(or_unknown(slice_text(class))),
            quoted(
                or_unknown(
                    if title is Some {
                        slice_text(title)
                    } else {
                        slice_text(old_title)
                    },
                ),
            ),
        ),
{
    let shown_class = match class {
        Some(text) => quote_text(text),
        None => quote_text("?"),
    };
    let shown_title = match title {
        Some(text) => quote_text(text),
        None => match old_title {
            Some(text) => quote_text(text),
            None => quote_text("?"),
        },
    };
    window_line_text(window, shown_class.as_str(), shown_title.as_str())
}

/// An atom in a diagnostic, with its name where it has one.
pub open spec fn atom_line(atom: u32, name: Option<Seq<char>>) -> Seq<char> {
    match name {
        Some(chars) => chars + "("@ + decimal(atom as nat) + ")"@,
        None => decimal(atom as nat),
    }
}

/// An atom in a diagnostic, with its name where it has one.
pub fn atom_line_text(atom: u32, name: Option<String>) -> (line: String)
    ensures
        line@ == atom_line(atom, crate::data_device::text_of(name)),
{
    let number = decimal_text(atom as u64);
    match name {
        Some(text) => text.concat("(").concat(number.as_str()).concat(")"),
        None => number,
    }
}

/// An atom in a diagnostic, from the name that the server gave.
pub fn atom_name(atom: u32, name: Option<Vec<u8>>) -> (line: String)
    ensures
        line@ == atom_line(
            atom,
            match name {
                Some(bytes) => Some(lossy_text(bytes@)),
                None => None,
            },
        ),
{
    match name {
        Some(bytes) => atom_line_text(atom, Some(read_lossy(&bytes))),
        None => atom_line_text(atom, None),
    }
}

/// A window in a diagnostic, with whether it takes drops.
pub open spec fn aware_line(window: Seq<char>, aware: bool) -> Seq<char> {
    window + "/aware="@ + truth(aware)
}

/// A window in a diagnostic, with whether it takes drops.
pub fn aware_line_text(window: String, aware: bool) -> (line: String)
    ensures
        line@ == aware_line(window@, aware),
{
    window.concat("/aware=").concat(truth_text(aware))
}

// ---------------------------------------------------------------------------
// A release without a target
// ---------------------------------------------------------------------------

/// How many ancestors of a window a diagnostic names at most.
pub const CHAIN_LIMIT: u32 = 12;

/// How many bridge candidates a diagnostic names at most.
pub const CANDIDATE_LIMIT: usize = 4;

/// Whether a chain of ancestors goes on above a window.
pub fn chain_goes_on(window: u32, root: u32, depth: u32) -> (goes_on: bool)
    ensures
        goes_on == (window != root && depth < CHAIN_LIMIT),
{
    window != root && depth < CHAIN_LIMIT
}

/// A chain of ancestors.
pub fn chain_line(entries: &Vec<String>) -> (line: String)
    ensures
        line@ == joined(texts(entries@), " <- "@),
{
    join_texts(entries, " <- ")
}

/// The geometry of a window.
#[derive(Clone, Copy, Debug, PartialEq, Eq, Structural)]
pub struct WindowGeometry {
    pub x: i16,
    pub y: i16,
    pub width: u16,
    pub height: u16,
}

/// What is known of a child of the root, for a diagnostic.
#[derive(Debug)]
pub struct CandidateFacts {
    pub window: u32,
    pub aware: bool,
    pub geometry: Option<WindowGeometry>,
    /// Whether it lies under the pointer.
    pub contains: bool,
    /// The window as shown.
    pub shown: String,
}

/// The entry of a bridge candidate.
pub open spec fn candidate_line(shown: Seq<char>, geometry: WindowGeometry, contains: bool) -> Seq<
    char,
> {
    shown + "/geom="@ + signed_decimal(geometry.x as int) + ","@ + signed_decimal(
        geometry.y as int,
    ) + " "@ + decimal(geometry.width as nat) + "x"@ + decimal(geometry.height as nat)
        + "/contains="@ + truth(contains)
}

fn candidate_line_text(shown: &str, geometry: WindowGeometry, contains: bool) -> (line: String)
    ensures
        line@ == candidate_line(shown@, geometry, contains),
{
    let x = signed_decimal_text(geometry.x as i32);
    let y = signed_decimal_text(geometry.y as i32);
    let width = decimal_text(geometry.width as u64);
    let height = decimal_text(geometry.height as u64);
    shown.to_owned().concat("/geom=").concat(x.as_str()).concat(",").concat(y.as_str()).concat(
        " ",
    ).concat(width.as_str()).concat("x").concat(height.as_str()).concat("/contains=").concat(
        truth_text(contains),
    )
}

/// Whether a child of the root is named as a bridge candidate.
pub open spec fn is_candidate(p: Probe, facts: CandidateFacts) -> bool {
    !p.passes_over(facts.window) && facts.aware && facts.geometry is Some
}

/// The entries of the candidates among the topmost children, those from index `n` on,
/// from the top of the stack down, at most [`CANDIDATE_LIMIT`].
pub open spec fn candidate_lines(p: Probe, children: Seq<CandidateFacts>, n: int) -> Seq<Seq<char>>
    decreases children.len() - n,
{
    if n < 0 || n >= children.len() {
        seq![]
    } else {
        let above = candidate_lines(p, children, n + 1);
        if is_candidate(p, children[n]) && above.len() < CANDIDATE_LIMIT {
            above.push(
                candidate_line(
                    children[n].shown@,
                    children[n].geometry->0,
                    children[n].contains,
                ),
            )
        } else {
            above
        }
    }
}

/// The bridge candidates in a diagnostic.
pub open spec fn bridge_line(p: Probe, children: Seq<CandidateFacts>) -> Seq<char> {
    let lines = candidate_lines(p, children, 0);
    if lines.len() == 0 {
        "none"@
    } else {
        joined(lines, " | "@)
    }
}

/// The bridge candidates in a diagnostic. `children` are the children of the root,
/// from the bottom of the stack to the top, where the display server tells them.
pub fn xdnd_bridge_diagnostics(p: &Probe, children: &Option<Vec<CandidateFacts>>) -> (line: String)
    ensures
        line@ == (match *children {
            Some(children) => bridge_line(*p, children@),
            None => "query_tree_failed"@,
        }),
{
    let children = match children {
        Some(children) => children,
        None => {
            return "query_tree_failed".to_owned();
        },
    };
    let mut lines: Vec<String> = Vec::new();
    let mut n: usize = children.len();
    assert(texts(lines@) =~= seq![]);
    while n > 0
        invariant
            n <= children@.len(),
            lines@.len() <= CANDIDATE_LIMIT,
            texts(lines@) == candidate_lines(*p, children@, n as int),
        decreases n,
    {
        n = n - 1;
        let facts = &children[n];
        if !p.skips(facts.window) && facts.aware && lines.len() < CANDIDATE_LIMIT {
            if let Some(geometry) = facts.geometry {
                let ghost before = lines@;
                let line = candidate_line_text(facts.shown.as_str(), geometry, facts.contains);
                lines.push(line);
                assert(texts(lines@) =~= texts(before).push(line@));
            }
        }
    }
    if lines.len() == 0 {
        "none".to_owned()
    } else {
        join_texts(&lines, " | ")
    }
}

/// The pointer position of a diagnostic.
pub open spec fn position_line(raw_x: i16, raw_y: i16, x: i16, y: i16) -> Seq<char> {
    "raw="@ + signed_decimal(raw_x as int) + ","@ + signed_decimal(raw_y as int) + " mapped="@
        + signed_decimal(x as int) + ","@ + signed_decimal(y as int)
}

/// The pointer position of a diagnostic.
pub fn position_line_text(raw_x: i16, raw_y: i16, x: i16, y: i16) -> (line: String)
    ensures
        line@ == position_line(raw_x, raw_y, x, y),
{
    let raw_x = signed_decimal_text(raw_x as i32);
    let raw_y = signed_decimal_text(raw_y as i32);
    let x = signed_decimal_text(x as i32);
    let y = signed_decimal_text(y as i32);
    "raw=".to_owned().concat(raw_x.as_str()).concat(",").concat(raw_y.as_str()).concat(
        " mapped=",
    ).concat(x.as_str()).concat(",").concat(y.as_str())
}

/// What is known where a drag was released without a target.
#[derive(Debug)]
pub struct NoTargetFacts {
    /// The pointer position.
    pub position: Option<String>,
    /// The window under the pointer, with whether it takes drops.
    pub pointer: Option<String>,
    /// The active window, with whether it takes drops.
    pub active: Option<String>,
    /// The ancestors of the window under the pointer.
    pub ancestry: Option<String>,
    /// The bridge candidates.
    pub bridge_candidates: Option<String>,
}

/// A text, or another one.
pub open spec fn text_or(text: Option<String>, other: Seq<char>) -> Seq<char> {
    match text {
        Some(chars) => chars@,
        None => other,
    }
}

fn own_text_or(text: Option<String>, other: &str) -> (shown: String)
    ensures
        shown@ == text_or(text, other@),
{
    match text {
        Some(chars) => chars,
        None => other.to_owned(),
    }
}

/// The diagnostic for a release without a target.
pub fn no_target_diagnostics(facts: NoTargetFacts) -> (line: String)
    ensures
        line@ == "drop released with no XdndAware target under pointer; pos="@ + text_or(
            facts.position,
            "unknown"@,
        ) + "; pointer="@ + text_or(facts.pointer, "none"@) + "; active="@ + text_or(
            facts.active,
            "none"@,
        ) + "; ancestry="@ + text_or(facts.ancestry, "none"@) + "; bridge_candidates="@ + text_or(
            facts.bridge_candidates,
            "unknown"@,
        ),
{
    let position = own_text_or(facts.position, "unknown");
    let pointer = own_text_or(facts.pointer, "none");
    let active = own_text_or(facts.active, "none");
    let ancestry = own_text_or(facts.ancestry, "none");
    let candidates = own_text_or(facts.bridge_candidates, "unknown");
    "drop released with no XdndAware target under pointer; pos=".to_owned().concat(
        position.as_str(),
    ).concat("; pointer=").concat(pointer.as_str()).concat("; active=").concat(
        active.as_str(),
    ).concat("; ancestry=").concat(ancestry.as_str()).concat("; bridge_candidates=").concat(
        candidates.as_str(),
    )
}

// ---------------------------------------------------------------------------
// Notes of the drag source
// ---------------------------------------------------------------------------

/// The position of a release and the state of the preview.
pub open spec fn preview_position_line(x: i16, y: i16, preview: bool) -> Seq<char> {
    "mapped="@ + signed_decimal(x as int) + ","@ + signed_decimal(y as int) + "; "@ + (if preview {
        "preview=active"@
    } else {
        "preview=none"@
    })
}

fn preview_position_text(x: i16, y: i16, preview: bool) -> (line: String)
    ensures
        line@ == preview_position_line(x, y, preview),
{
    let x = signed_decimal_text(x as i32);
    let y = signed_decimal_text(y as i32);
    "mapped=".to_owned().concat(x.as_str()).concat(",").concat(y.as_str()).concat("; ").concat(
        if preview {
            "preview=active"
        } else {
            "preview=none"
        },
    )
}

/// The status of a target.
pub open spec fn status_line(flags: u32, action: Seq<char>) -> Seq<char> {
    "flags=0x"@ + hexadecimal(flags as nat) + ", action="@ + action
}

fn status_diagnostics(flags: u32, action: &str) -> (line: String)
    ensures
        line@ == status_line(flags, action@),
{
    let flags = hexadecimal_text(flags);
    "flags=0x".to_owned().concat(flags.as_str()).concat(", action=").concat(action)
}

/// What a note is filled in with.
#[derive(Debug)]
pub struct NoteTexts {
    /// The window that the note is about, as shown.
    pub window: String,
    /// The atom that the note is about, as shown.
    pub atom: String,
    /// The native client under the pointer, where one is known.
    pub native_app: Option<String>,
    /// Length of the key of the portal file transfer.
    pub key_bytes: usize,
}

/// The text of a note.
pub open spec fn note_line(note: XdndNote, with: NoteTexts) -> Seq<char> {
    match note {
        XdndNote::Handoff =>
            "handoff: pointer over native Wayland surface; switching to native drag"@,
        XdndNote::Suppressed(decision) => match decision.reason() {
            Some(reason) => reason,
            None => ""@,
        },
        XdndNote::Entered(_) => "XDND entered target: "@ + with.window@,
        XdndNote::Released { raw_x, raw_y, x, y } => "XDND release coordinates: "@ + position_line(
            raw_x,
            raw_y,
            x,
            y,
        ),
        XdndNote::Bridged { release, x, y, preview } => {
            let at = signed_decimal(x as int) + ","@ + signed_decimal(y as int);
            let place = preview_position_line(x, y, preview);
            match release {
                BridgeRelease::Resolved(_) => "XDND bridge release resolved at "@ + at + " ("@
                    + place + "): "@ + with.window@,
                BridgeRelease::Reused(_) =>
                    "XDND bridge release reused target under pointer at "@ + at + " ("@ + place
                        + "): "@ + with.window@,
                BridgeRelease::Bridge(_) =>
                    "XDND release target: native Wayland target via XWayland bridge at "@ + at
                        + "; target_app="@ + text_or(with.native_app, "unknown native Wayland app"@)
                        + "; "@ + place,
            }
        },
        XdndNote::DropSent(_) => "XDND drop sent: "@ + with.window@,
        XdndNote::Accepts { target, flags, action } =>
            "XDND target status: advertised accept: "@ + with.window@ + " ("@ + status_line(
                flags,
                with.atom@,
            ) + ")"@,
        XdndNote::Declines { target, flags, action } =>
            "XDND target status: no advertised accept yet: "@ + with.window@ + " ("@ + status_line(
                flags,
                with.atom@,
            ) + ")"@,
        XdndNote::Requested { after_drop, requestor, target } => "XDND "@ + request_phase(
            after_drop,
        ) + " requested by "@ + with.window@ + " as "@ + with.atom@,
        XdndNote::Served { portal, requestor, target } => if portal {
            "XDND served portal file transfer: requestor="@ + with.window@ + ", target="@
                + with.atom@ + ", key "@ + decimal(with.key_bytes as nat) + " bytes"@
        } else {
            "XDND served file data: requestor="@ + with.window@ + ", target="@ + with.atom@
        },
    }
}

/// The text of a note.
pub fn note_text(note: XdndNote, with: NoteTexts) -> (text: String)
    ensures
        text@ == note_line(note, with),
{
    match note {
        XdndNote::Handoff => {
            "handoff: pointer over native Wayland surface; switching to native drag".to_owned()
        },
        XdndNote::Suppressed(decision) => match decision.suppression_log() {
            Some(reason) => reason.to_owned(),
            None => "".to_owned(),
        },
        XdndNote::Entered(_) => "XDND entered target: ".to_owned().concat(with.window.as_str()),
        XdndNote::Released { raw_x, raw_y, x, y } => {
            let position = position_line_text(raw_x, raw_y, x, y);
            "XDND release coordinates: ".to_owned().concat(position.as_str())
        },
        XdndNote::Bridged { release, x, y, preview } => {
            let place = preview_position_text(x, y, preview);
            let at_y = signed_decimal_text(y as i32);
            let at = signed_decimal_text(x as i32).concat(",").concat(at_y.as_str());
            match release {
                BridgeRelease::Resolved(_) => {
                    "XDND bridge release resolved at ".to_owned().concat(at.as_str()).concat(
                        " (",
                    ).concat(place.as_str()).concat("): ").concat(with.window.as_str())
                },
                BridgeRelease::Reused(_) => {
                    "XDND bridge release reused target under pointer at ".to_owned().concat(
                        at.as_str(),
                    ).concat(" (").concat(place.as_str()).concat("): ").concat(
                        with.window.as_str(),
                    )
                },
                BridgeRelease::Bridge(_) => {
                    let app = own_text_or(with.native_app, "unknown native Wayland app");
                    "XDND release target: native Wayland target via XWayland bridge at ".to_owned().concat(
                    at.as_str()).concat("; target_app=").concat(app.as_str()).concat("; ").concat(
                        place.as_str(),
                    )
                },
            }
        },
        XdndNote::DropSent(_) => "XDND drop sent: ".to_owned().concat(with.window.as_str()),
        XdndNote::Accepts { target: _, flags, action: _ } => {
            let status = status_diagnostics(flags, with.atom.as_str());
            "XDND target status: advertised accept: ".to_owned().concat(
                with.window.as_str(),
            ).concat(" (").concat(status.as_str()).concat(")")
        },
        XdndNote::Declines { target: _, flags, action: _ } => {
            let status = status_diagnostics(flags, with.atom.as_str());
            "XDND target status: no advertised accept yet: ".to_owned().concat(
                with.window.as_str(),
            ).concat(" (").concat(status.as_str()).concat(")")
        },
        XdndNote::Requested { after_drop, requestor: _, target: _ } => {
            let phase = if after_drop {
                "drop payload"
            } else {
                "hover payload"
            };
            "XDND ".to_owned().concat(phase).concat(" requested by ").concat(
                with.window.as_str(),
            ).concat(" as ").concat(with.atom.as_str())
        },
        XdndNote::Served { portal, requestor: _, target: _ } => {
            if portal {
                let bytes = decimal_text(with.key_bytes as u64);
                "XDND served portal file transfer: requestor=".to_owned().concat(
                    with.window.as_str(),
                ).concat(", target=").concat(with.atom.as_str()).concat(", key ").concat(
                    bytes.as_str(),
                ).concat(" bytes")
            } else {
                "XDND served file data: requestor=".to_owned().concat(with.window.as_str()).concat(
                    ", target=",
                ).concat(with.atom.as_str())
            }
        },
    }
}

/// The diagnostic for the start of an XDND drag.
pub fn started_line() -> (line: String)
    ensures
        line@ == DragPhase::Started.title() + " via "@ + DragTargetKind::RealXWindow.title(),
{
    DragPhase::Started.summary().to_owned().concat(" via ").concat(
        DragTargetKind::RealXWindow.summary(),
    )
}

/// The diagnostic for the desktop that a drag maps coordinates on.
pub fn coordinate_map_line(map: &str) -> (line: String)
    ensures
        line@ == "Coordinate map: "@ + map@,
{
    "Coordinate map: ".to_owned().concat(map)
}

/// The diagnostic for the desktop that a preview moves on.
pub fn preview_map_line(map: &str) -> (line: String)
    ensures
        line@ == "Preview desktop map: "@ + map@,
{
    "Preview desktop map: ".to_owned().concat(map)
}

/// The diagnostic for the end of a drop.
pub fn finished_line(stats: DragSessionStats) -> (line: String)
    requires
        stats.data_requests() <= u32::MAX,
    ensures
        line@ == "XDND target finished drop: total_data_requests="@ + decimal(
            stats.data_requests() as nat,
        ),
{
    let total = decimal_text(stats.total_data_requests() as u64);
    "XDND target finished drop: total_data_requests=".to_owned().concat(total.as_str())
}

// ---------------------------------------------------------------------------
// The worker of a drag
// ---------------------------------------------------------------------------

/// The plan of an XDND drag.
pub open spec fn plan_of_xdnd() -> DragBackendPlan {
    DragBackendPlan {
        route: DragRoute::XwaylandToXwayland,
        source: DragEndpointKind::XwaylandWindow,
        expected_target: DragEndpointKind::Unknown,
    }
}

/// The plan of a native drag that takes over.
pub open spec fn plan_of_handoff() -> DragBackendPlan {
    DragBackendPlan {
        route: DragRoute::XwaylandToWaylandBridge,
        source: DragEndpointKind::XwaylandWindow,
        expected_target: DragEndpointKind::WaylandSurface,
    }
}

/// The plan of an XDND drag.
pub fn xdnd_plan() -> (plan: DragBackendPlan)
    ensures
        plan == plan_of_xdnd(),
{
    DragBackendPlan::new(
        DragRoute::XwaylandToXwayland,
        DragEndpointKind::XwaylandWindow,
        DragEndpointKind::Unknown,
    )
}

/// The plan of a native drag that takes over.
pub fn handoff_plan() -> (plan: DragBackendPlan)
    ensures
        plan == plan_of_handoff(),
{
    DragBackendPlan::new(
        DragRoute::XwaylandToWaylandBridge,
        DragEndpointKind::XwaylandWindow,
        DragEndpointKind::WaylandSurface,
    )
}

/// The diagnostic for a worker that starts.
pub open spec fn worker_line(origin: u32, plan: Seq<char>) -> Seq<char> {
    "XDND worker started: origin=0x"@ + hexadecimal(origin as nat) + ", route="@ + plan
}

/// Report that a worker starts.
pub fn report_worker_started(bus: &mut BackendBus, drag_id: u64, origin: u32)
    ensures
        final(bus)@ == old(bus)@.with_event(
            drag_line(drag_id, worker_line(origin, plan_of_xdnd().line())),
        ),
{
    let plan = xdnd_plan();
    let route = plan.summary();
    let id = hexadecimal_text(origin);
    let message = "XDND worker started: origin=0x".to_owned().concat(id.as_str()).concat(
        ", route=",
    ).concat(route.as_str());
    emit_backend_event(bus, drag_line_text(drag_id, message.as_str()));
}

/// The diagnostic for a drag that ended with a report.
pub open spec fn report_line(kind: Seq<char>, report: DragSessionReport) -> Seq<char> {
    kind + " "@ + report.completion.name() + ": "@ + report.line() + "; "@ + report.stats.line()
}

fn report_line_text(kind: &str, report: &DragSessionReport) -> (line: String)
    ensures
        line@ == report_line(kind@, *report),
{
    let summary = report.summary();
    let stats = report.stats_summary();
    kind.to_owned().concat(" ").concat(report.completion.as_str()).concat(": ").concat(
        summary.as_str(),
    ).concat("; ").concat(stats.as_str())
}

/// The bus after a drag ended with a report, or for a reason that stands behind
/// `failure`.
pub open spec fn with_end(
    bus: BusView,
    drag_id: u64,
    kind: Seq<char>,
    failure: Seq<char>,
    outcome: Result<DragSessionReport, String>,
) -> BusView {
    match outcome {
        Ok(report) => bus.with_event(
            drag_line(drag_id, report_line(kind, report)),
        ).with_lifecycle(
            ExternalDragLifecycleEvent { drag_id, phase: terminal_phase(report.completion) },
        ),
        Err(message) => bus.with_event(drag_line(drag_id, failure + message@)).with_lifecycle(
            ExternalDragLifecycleEvent { drag_id, phase: ExternalDragLifecyclePhase::Failed },
        ),
    }
}

fn report_end(
    bus: &mut BackendBus,
    drag_id: u64,
    kind: &str,
    failure: &str,
    outcome: Result<DragSessionReport, String>,
)
    ensures
        final(bus)@ == with_end(old(bus)@, drag_id, kind@, failure@, outcome),
{
    match outcome {
        Ok(report) => {
            let line = report_line_text(kind, &report);
            emit_backend_event(bus, drag_line_text(drag_id, line.as_str()));
            emit_terminal_lifecycle(bus, drag_id, &report);
        },
        Err(message) => {
            let line = failure.to_owned().concat(message.as_str());
            emit_backend_event(bus, drag_line_text(drag_id, line.as_str()));
            emit_backend_lifecycle_event(
                bus,
                ExternalDragLifecycleEvent::new(drag_id, ExternalDragLifecyclePhase::Failed),
            );
        },
    }
}

/// Outcome of an XDND source session.
#[derive(Debug)]
pub enum XdndOutcome {
    /// The drag ended with a report.
    Completed(DragSessionReport),
    /// A native drag takes over.
    HandoffToNative,
}

/// The bus after the XDND part of a drag.
pub open spec fn with_xdnd_outcome(
    bus: BusView,
    drag_id: u64,
    outcome: Result<XdndOutcome, String>,
) -> BusView {
    match outcome {
        Ok(XdndOutcome::HandoffToNative) => bus.with_event(
            drag_line(
                drag_id,
                "Native Wayland worker started after XDND handoff; "@ + plan_of_handoff().line(),
            ),
        ),
        Ok(XdndOutcome::Completed(report)) => with_end(
            bus,
            drag_id,
            "XDND"@,
            "XDND failed: "@,
            Ok(report),
        ),
        Err(message) => with_end(bus, drag_id, "XDND"@, "XDND failed: "@, Err(message)),
    }
}

/// Report what came of the XDND part of a drag. Gives whether a native drag takes over;
/// its end is then reported by [`report_native_end`].
pub fn report_xdnd_outcome(
    bus: &mut BackendBus,
    drag_id: u64,
    outcome: Result<XdndOutcome, String>,
) -> (native: bool)
    ensures
        final(bus)@ == with_xdnd_outcome(old(bus)@, drag_id, outcome),
        native == (outcome matches Ok(XdndOutcome::HandoffToNative)),
{
    match outcome {
        Ok(XdndOutcome::HandoffToNative) => {
            let plan = handoff_plan();
            let route = plan.summary();
            let message = "Native Wayland worker started after XDND handoff; ".to_owned().concat(
                route.as_str(),
            );
            emit_backend_event(bus, drag_line_text(drag_id, message.as_str()));
            true
        },
        Ok(XdndOutcome::Completed(report)) => {
            report_end(bus, drag_id, "XDND", "XDND failed: ", Ok(report));
            false
        },
        Err(message) => {
            report_end(bus, drag_id, "XDND", "XDND failed: ", Err(message));
            false
        },
    }
}

/// The bus after the end of a native drag that took over.
pub open spec fn with_native_end(
    bus: BusView,
    drag_id: u64,
    outcome: Result<DragSessionReport, String>,
) -> BusView {
    with_end(
        bus,
        drag_id,
        "Native Wayland drag"@,
        "Native Wayland drag failed after handoff: "@,
        outcome,
    )
}

/// Report the end of a native drag that took over.
pub fn report_native_end(
    bus: &mut BackendBus,
    drag_id: u64,
    outcome: Result<DragSessionReport, String>,
)
    ensures
        final(bus)@ == with_native_end(old(bus)@, drag_id, outcome),
{
    report_end(
        bus,
        drag_id,
        "Native Wayland drag",
        "Native Wayland drag failed after handoff: ",
        outcome,
    );
}

/// Report whether a portal file transfer is ready: the portal and the length of the
/// key, or why there is none.
pub fn report_portal(
    bus: &mut BackendBus,
    drag_id: u64,
    file_count: usize,
    transfer: Result<(&str, usize), String>,
)
    ensures
        final(bus)@ == old(bus)@.with_event(
            drag_line(
                drag_id,
                match transfer {
                    Ok((portal, key_bytes)) => "Portal FileTransfer ready via "@ + portal@ + ": "@
                        + decimal(file_count as nat) + " file(s), key "@ + decimal(
                        key_bytes as nat,
                    ) + " bytes"@,
                    Err(message) => "Portal FileTransfer unavailable: "@ + message@,
                },
            ),
        ),
{
    let message = match transfer {
        Ok((portal, key_bytes)) => {
            let files = decimal_text(file_count as u64);
            let bytes = decimal_text(key_bytes as u64);
            "Portal FileTransfer ready via ".to_owned().concat(portal).concat(": ").concat(
                files.as_str(),
            ).concat(" file(s), key ").concat(bytes.as_str()).concat(" bytes")
        },
        Err(message) => "Portal FileTransfer unavailable: ".to_owned().concat(message.as_str()),
    };
    emit_backend_event(bus, drag_line_text(drag_id, message.as_str()));
}

/// A worker ends its drag exactly once: the XDND part does, unless a native drag takes
/// over, whose end does then. The end waits for the owner of the drag.
pub proof fn worker_ends_its_drag_once(
    bus: BusView,
    drag_id: u64,
    outcome: Result<XdndOutcome, String>,
    native: Result<DragSessionReport, String>,
)
    ensures
        ({
            let after = with_xdnd_outcome(bus, drag_id, outcome);
            let over = outcome matches Ok(XdndOutcome::HandoffToNative);
            let last = if over {
                with_native_end(after, drag_id, native)
            } else {
                after
            };
            &&& over ==> after.lifecycle == bus.lifecycle
            &&& last.lifecycle.len() == bus.lifecycle.len() + 1
            &&& last.lifecycle.drop_last() == bus.lifecycle
            &&& last.lifecycle.last().drag_id == drag_id
            &&& last.lifecycle.last().phase.terminal()
            &&& last.waiting(drag_id) == Some(last.lifecycle.last().phase)
        }),
{
    let after = with_xdnd_outcome(bus, drag_id, outcome);
    let over = outcome matches Ok(XdndOutcome::HandoffToNative);
    let last = if over {
        with_native_end(after, drag_id, native)
    } else {
        after
    };
    assert(last.lifecycle.drop_last() =~= bus.lifecycle);
}

/// A shown property is its text with a slash for every zero character, up to the last
/// character that is neither a zero nor a slash.
pub proof fn properties_are_shown_up_to_their_last_part(text: Seq<char>, i: int)
    ensures
        ({
            let shown = without_trailing_slashes(without_zeros(text));
            &&& shown.len() <= text.len()
            &&& shown.len() > 0 ==> shown.last() != '/' && shown.last() != '\0'
            &&& 0 <= i < shown.len() ==> shown[i] == (if text[i] == '\0' {
                '/'
            } else {
                text[i]
            })
            &&& shown.len() <= i < text.len() ==> text[i] == '\0' || text[i] == '/'
        }),
{
    let whole = without_zeros(text);
    slashes_are_cut(whole);
    let shown = without_trailing_slashes(whole);
    if shown.len() > 0 {
        assert(shown.last() == whole[shown.len() - 1]);
    }
    if 0 <= i < shown.len() {
        assert(shown[i] == whole[i]);
    }
    if shown.len() <= i < text.len() {
        assert(whole[i] == '/');
    }
}

proof fn slashes_are_cut(text: Seq<char>)
    ensures
        ({
            let shown = without_trailing_slashes(text);
            &&& shown.len() <= text.len()
            &&& shown == text.take(shown.len() as int)
            &&& shown.len() > 0 ==> shown.last() != '/'
            &&& forall|i: int| shown.len() <= i < text.len() ==> #[trigger] text[i] == '/'
        }),
    decreases text.len(),
{
    if text.len() > 0 && text.last() == '/' {
        let front = text.drop_last();
        slashes_are_cut(front);
        let shown = without_trailing_slashes(front);
        assert(front.take(shown.len() as int) =~= text.take(shown.len() as int));
        assert forall|i: int| shown.len() <= i < text.len() implies #[trigger] text[i] == '/' by {
            if i < front.len() {
                assert(front[i] == '/');
            }
        }
    } else {
        assert(text.take(text.len() as int) =~= text);
    }
}

/// Whether a child of the root may be named as a bridge: it takes drops, its place is
/// known, and it is neither the source nor the origin of the drag.
pub open spec fn may_be_bridge(p: Probe, child: CandidateFacts) -> bool {
    &&& child.window != p.source
    &&& p.origin != Some(child.window)
    &&& child.aware
    &&& child.geometry is Some
}

/// The topmost candidates are named, from the top of the stack down, four at most: the
/// topmost one of the children from `n` on comes first.
pub proof fn topmost_candidate_is_named_first(
    p: Probe,
    children: Seq<CandidateFacts>,
    n: int,
    top: int,
)
    requires
        0 <= n <= top < children.len(),
        may_be_bridge(p, children[top]),
        forall|k: int| top < k < children.len() ==> !may_be_bridge(p, #[trigger] children[k]),
    ensures
        0 < candidate_lines(p, children, n).len() <= 4,
        candidate_lines(p, children, n)[0] == candidate_line(
            children[top].shown@,
            children[top].geometry->0,
            children[top].contains,
        ),
    decreases children.len() - n,
{
    if n < top {
        topmost_candidate_is_named_first(p, children, n + 1, top);
    } else {
        no_candidate_is_named(p, children, n + 1);
    }
}

/// Where there is no candidate, none is named.
pub proof fn no_candidate_is_named(p: Probe, children: Seq<CandidateFacts>, n: int)
    requires
        0 <= n <= children.len(),
        forall|k: int| n <= k < children.len() ==> !may_be_bridge(p, #[trigger] children[k]),
    ensures
        candidate_lines(p, children, n).len() == 0,
    decreases children.len() - n,
{
    if n < children.len() {
        no_candidate_is_named(p, children, n + 1);
    }
}

/// A candidate below those that are named comes after them while fewer than four are;
/// any other child, and a fifth candidate, adds nothing.
pub proof fn lower_candidates_come_later(p: Probe, children: Seq<CandidateFacts>, n: int)
    requires
        0 <= n < children.len(),
    ensures
        ({
            let above = candidate_lines(p, children, n + 1);
            let named = candidate_lines(p, children, n);
            if may_be_bridge(p, children[n]) && above.len() < 4 {
                &&& named.len() == above.len() + 1
                &&& named.drop_last() == above
                &&& named.last() == candidate_line(
                    children[n].shown@,
                    children[n].geometry->0,
                    children[n].contains,
                )
            } else {
                named == above
            }
        }),
{
    let above = candidate_lines(p, children, n + 1);
    let named = candidate_lines(p, children, n);
    if may_be_bridge(p, children[n]) && above.len() < 4 {
        assert(named.drop_last() =~= above);
    }
}

/// A drag that ends with an error is reported as failed, with the reason; one that
/// ends with a report is reported as finished exactly where it was delivered. Either
/// way one line is written, and nothing that was reported before is lost.
pub proof fn ends_are_reported_as_they_are(
    bus: BusView,
    drag_id: u64,
    kind: Seq<char>,
    failure: Seq<char>,
    outcome: Result<DragSessionReport, String>,
)
    ensures
        ({
            let after = with_end(bus, drag_id, kind, failure, outcome);
            &&& after.lifecycle.len() == bus.lifecycle.len() + 1
            &&& after.events.len() == bus.events.len() + 1
            &&& forall|i: int|
                0 <= i < bus.lifecycle.len() ==> #[trigger] after.lifecycle[i] == bus.lifecycle[i]
            &&& forall|i: int|
                0 <= i < bus.events.len() ==> #[trigger] after.events[i] == bus.events[i]
            &&& after.lifecycle.last().drag_id == drag_id
            &&& match outcome {
                Err(message) => after.lifecycle.last().phase is Failed && after.events.last()
                    == drag_line(drag_id, failure + message@),
                Ok(report) => after.events.last() == drag_line(
                    drag_id,
                    kind + " "@ + report.completion.name() + ": "@ + report.line() + "; "@
                        + report.stats.line(),
                ),
            }
        }),
{
}

/// A drag that is handed over is not ended by the worker that hands it over; each worker
/// names its own kind of drag.
pub proof fn workers_name_their_drags(
    bus: BusView,
    drag_id: u64,
    message: String,
    report: DragSessionReport,
)
    ensures
        with_xdnd_outcome(bus, drag_id, Ok(XdndOutcome::HandoffToNative)).lifecycle
            == bus.lifecycle,
        with_xdnd_outcome(bus, drag_id, Err(message)).lifecycle.last().phase is Failed,
        with_native_end(bus, drag_id, Err(message)).lifecycle.last().phase is Failed,
        with_native_end(bus, drag_id, Err(message)).events.last() == drag_line(
            drag_id,
            "Native Wayland drag failed after handoff: "@ + message@,
        ),
        with_xdnd_outcome(bus, drag_id, Ok(XdndOutcome::Completed(report))).lifecycle
            == with_native_end(bus, drag_id, Ok(report)).lifecycle,
        plan_of_xdnd().route is XwaylandToXwayland && plan_of_xdnd().source is XwaylandWindow
            && plan_of_xdnd().expected_target is Unknown,
        plan_of_handoff().route is XwaylandToWaylandBridge
            && plan_of_handoff().source is XwaylandWindow
            && plan_of_handoff().expected_target is WaylandSurface,
        CHAIN_LIMIT == 12,
{
}

/// Notes about different windows, and about different positions, can be told apart.
pub proof fn lines_show_their_values(a: u32, b: u32, class: Seq<char>, title: Seq<char>)
    ensures
        atom_line(a, None) == atom_line(b, None) ==> a == b,
        window_line(a, class, title).take(2) == "0x"@,
        aware_line(class, true) != aware_line(class, false),
{
    reveal_strlit("0x");
    reveal_strlit("true");
    reveal_strlit("false");
    reveal_strlit("/aware=");
    crate::text::numbers_are_told_apart(a as nat, b as nat);
    assert(window_line(a, class, title).take(2) =~= "0x"@);
    assert(aware_line(class, true).len() != aware_line(class, false).len());
}

/// Where there is no candidate the diagnostic says so; one candidate stands alone.
pub proof fn bridges_are_named_or_there_are_none(p: Probe, children: Seq<CandidateFacts>)
    ensures
        (forall|k: int| 0 <= k < children.len() ==> !may_be_bridge(p, #[trigger] children[k]))
            ==> bridge_line(p, children) == "none"@,
        candidate_lines(p, children, 0).len() == 1 ==> bridge_line(p, children) == candidate_lines(
            p,
            children,
            0,
        )[0],
        candidate_lines(p, children, 0).len() == 2 ==> bridge_line(p, children) == candidate_lines(
            p,
            children,
            0,
        )[0] + " | "@ + candidate_lines(p, children, 0)[1],
{
    if forall|k: int| 0 <= k < children.len() ==> !may_be_bridge(p, #[trigger] children[k]) {
        no_candidate_is_named(p, children, 0);
    }
    let lines = candidate_lines(p, children, 0);
    if lines.len() == 2 {
        assert(lines.drop_last().len() == 1);
        assert(lines.drop_last()[0] == lines[0]);
        assert(joined(lines.drop_last(), " | "@) == lines[0]);
    }
}

/// The place of a release says at its end whether a preview is shown.
pub proof fn release_lines_say_whether_a_preview_is_shown(x: i16, y: i16)
    ensures
        ({
            let place = "mapped="@ + signed_decimal(x as int) + ","@ + signed_decimal(y as int)
                + "; "@;
            &&& preview_position_line(x, y, true) == place + "preview=active"@
            &&& preview_position_line(x, y, false) == place + "preview=none"@
        }),
{
}

} // verus!
