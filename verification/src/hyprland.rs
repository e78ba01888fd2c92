//! What the Hyprland compositor reports of its monitors and clients.

use serde_json::Value;
use vstd::prelude::*;

use crate::json::{
    as_float_bits, as_list, as_truth, float_view, items_view, json_contents, json_document, member,
    member_view, pair_member, parse_json, read_pair_member, read_small_member, read_text_member,
    small_member, text_member, truth_view, JsonView,
};
use crate::monitors::{in_rect, mapped_point, maps_to, scales, DragCoordinateMapper, PreviewMonitor};
use crate::text::same_text;

verus! {

/// A monitor that the compositor reports, in logical points.
#[derive(Debug, PartialEq, Eq)]
pub struct ReportedMonitor {
    pub name: String,
    pub x: i32,
    pub y: i32,
    pub width: i32,
    pub height: i32,
    /// Bits of the scale, a double.
    pub scale_bits: u64,
}

/// A reported monitor as a mathematical value.
pub struct MonitorView {
    pub name: Seq<char>,
    pub x: i32,
    pub y: i32,
    pub width: i32,
    pub height: i32,
    pub scale_bits: u64,
}

impl View for ReportedMonitor {
    type V = MonitorView;

    open spec fn view(&self) -> MonitorView {
        MonitorView {
            name: self.name@,
            x: self.x,
            y: self.y,
            width: self.width,
            height: self.height,
            scale_bits: self.scale_bits,
        }
    }
}

/// The values of a list of reported monitors.
pub open spec fn monitor_views(monitors: Seq<ReportedMonitor>) -> Seq<MonitorView> {
    Seq::new(monitors.len(), |i: int| monitors[i]@)
}

/// The scale of a reported monitor.
pub open spec fn scale_member(json: JsonView) -> Option<u64> {
    match member_view(json, "scale"@) {
        Some(inner) => float_view(inner),
        None => None,
    }
}

/// A monitor, read from its report. All parts are needed.
pub open spec fn monitor_of(json: JsonView) -> Option<MonitorView> {
    match (
        text_member(json, "name"@),
        small_member(json, "width"@),
        small_member(json, "height"@),
        small_member(json, "x"@),
        small_member(json, "y"@),
        scale_member(json),
    ) {
        (Some(name), Some(width), Some(height), Some(x), Some(y), Some(scale_bits)) => Some(
            MonitorView { name, x, y, width, height, scale_bits },
        ),
        _ => None,
    }
}

/// The monitors of the first `n` reports; incomplete reports are passed over.
pub open spec fn monitors_of(reports: Seq<JsonView>, n: int) -> Seq<MonitorView>
    decreases n,
{
    if n <= 0 {
        seq![]
    } else {
        let before = monitors_of(reports, n - 1);
        match monitor_of(reports[n - 1]) {
            Some(monitor) => before.push(monitor),
            None => before,
        }
    }
}

/// The monitors that a document reports.
pub open spec fn reported_monitors(document: Option<JsonView>) -> Seq<MonitorView> {
    match document {
        Some(JsonView::List(reports)) => monitors_of(reports, reports.len() as int),
        _ => seq![],
    }
}

fn read_monitor(report: &Value) -> (monitor: Option<ReportedMonitor>)
    ensures
        monitor is Some == monitor_of(json_contents(*report)) is Some,
        monitor matches Some(found) ==> Some(found@) == monitor_of(json_contents(*report)),
{
    let name = match read_text_member(report, "name") {
        Some(name) => name,
        None => {
            return None;
        },
    };
    let width: i32 = match read_small_member(report, "width") {
        Some(n) => n,
        None => {
            return None;
        },
    };
    let height: i32 = match read_small_member(report, "height") {
        Some(n) => n,
        None => {
            return None;
        },
    };
    let x: i32 = match read_small_member(report, "x") {
        Some(n) => n,
        None => {
            return None;
        },
    };
    let y: i32 = match read_small_member(report, "y") {
        Some(n) => n,
        None => {
            return None;
        },
    };
    match member(report, "scale") {
        Some(scale) => match as_float_bits(scale) {
            Some(scale_bits) => Some(ReportedMonitor { name, x, y, width, height, scale_bits }),
            None => None,
        },
        None => None,
    }
}

/// The monitors that the compositor reports (`hyprctl monitors -j`).
pub fn parse_hypr_monitors(output: &Vec<u8>) -> (monitors: Vec<ReportedMonitor>)
    ensures
        monitor_views(monitors@) == reported_monitors(json_document(output@)),
{
    let mut monitors: Vec<ReportedMonitor> = Vec::new();
    assert(monitor_views(monitors@) =~= seq![]);
    if let Some(document) = parse_json(output) {
        if let Some(reports) = as_list(&document) {
            let ghost views = items_view(reports@);
            for i in 0..reports.len()
                invariant
                    views == items_view(reports@),
                    monitor_views(monitors@) == monitors_of(views, i as int),
            {
                assert(views[i as int] == json_contents(reports@[i as int]));
                if let Some(monitor) = read_monitor(&reports[i]) {
                    let ghost before = monitors@;
                    monitors.push(monitor);
                    assert(monitor_views(monitors@) =~= monitor_views(before).push(monitor@));
                }
            }
        }
    }
    monitors
}

/// A reported monitor with its place in X11 pixels.
#[derive(Debug, PartialEq, Eq)]
pub struct PlacedMonitor {
    pub monitor: ReportedMonitor,
    pub x11_x: i32,
    pub x11_y: i32,
}

/// The first X11 monitor with a name, from index `i` on.
pub open spec fn named_monitor(monitors: Seq<PreviewMonitor>, name: Seq<char>, i: int) -> Option<int>
    decreases monitors.len() - i,
{
    if i < 0 || i >= monitors.len() {
        None
    } else if monitors[i].name@ == name {
        Some(i)
    } else {
        named_monitor(monitors, name, i + 1)
    }
}

/// A placed monitor as a mathematical value.
pub struct PlacedView {
    pub monitor: MonitorView,
    pub x11_x: i32,
    pub x11_y: i32,
}

/// The values of a list of placed monitors.
pub open spec fn placed_views(monitors: Seq<PlacedMonitor>) -> Seq<PlacedView> {
    Seq::new(
        monitors.len(),
        |i: int|
            PlacedView {
                monitor: monitors[i].monitor@,
                x11_x: monitors[i].x11_x,
                x11_y: monitors[i].x11_y,
            },
    )
}

/// The first `n` reported monitors, with the places of the X11 monitors of the same
/// names; those without one are passed over.
pub open spec fn placed(reported: Seq<MonitorView>, x11: Seq<PreviewMonitor>, n: int) -> Seq<
    PlacedView,
>
    decreases n,
{
    if n <= 0 {
        seq![]
    } else {
        let before = placed(reported, x11, n - 1);
        let monitor = reported[n - 1];
        match named_monitor(x11, monitor.name, 0) {
            Some(i) => before.push(PlacedView { monitor, x11_x: x11[i].x, x11_y: x11[i].y }),
            None => before,
        }
    }
}

fn find_named(monitors: &Vec<PreviewMonitor>, name: &str) -> (found: Option<usize>)
    ensures
        match named_monitor(monitors@, name@, 0) {
            Some(i) => found is Some && found->0 as int == i && 0 <= i < monitors@.len(),
            None => found is None,
        },
{
    for i in 0..monitors.len()
        invariant
            named_monitor(monitors@, name@, 0) == named_monitor(monitors@, name@, i as int),
    {
        if same_text(monitors[i].name.as_str(), name) {
            return Some(i);
        }
    }
    None
}

impl ReportedMonitor {
    fn duplicate(&self) -> (copy: ReportedMonitor)
        ensures
            copy@ == self@,
    {
        ReportedMonitor {
            name: self.name.clone(),
            x: self.x,
            y: self.y,
            width: self.width,
            height: self.height,
            scale_bits: self.scale_bits,
        }
    }
}

/// Place reported monitors by the X11 monitors of the same names.
pub fn hypr_preview_monitors(
    reported: &Vec<ReportedMonitor>,
    x11_monitors: &Vec<PreviewMonitor>,
) -> (monitors: Vec<PlacedMonitor>)
    ensures
        placed_views(monitors@) == placed(
            monitor_views(reported@),
            x11_monitors@,
            reported@.len() as int,
        ),
{
    let ghost all = monitor_views(reported@);
    let mut monitors: Vec<PlacedMonitor> = Vec::new();
    assert(placed_views(monitors@) =~= seq![]);
    for i in 0..reported.len()
        invariant
            all == monitor_views(reported@),
            placed_views(monitors@) == placed(all, x11_monitors@, i as int),
    {
        assert(all[i as int] == reported@[i as int]@);
        if let Some(k) = find_named(x11_monitors, reported[i].name.as_str()) {
            let ghost before = monitors@;
            monitors.push(
                PlacedMonitor {
                    monitor: reported[i].duplicate(),
                    x11_x: x11_monitors[k].x,
                    x11_y: x11_monitors[k].y,
                },
            );
            assert(placed_views(monitors@) =~= placed_views(before).push(
                PlacedView {
                    monitor: all[i as int],
                    x11_x: x11_monitors@[k as int].x,
                    x11_y: x11_monitors@[k as int].y,
                },
            ));
        }
    }
    monitors
}

// ---------------------------------------------------------------------------
// Clients
// ---------------------------------------------------------------------------

/// A client window that the compositor reports, in logical points.
#[derive(Debug, PartialEq, Eq)]
pub struct ReportedClient {
    pub hidden: bool,
    pub x: i32,
    pub y: i32,
    pub width: i32,
    pub height: i32,
    pub class: Option<String>,
    pub title: Option<String>,
}

/// A reported client as a mathematical value.
pub struct ClientView {
    pub hidden: bool,
    pub x: i32,
    pub y: i32,
    pub width: i32,
    pub height: i32,
    pub class: Option<Seq<char>>,
    pub title: Option<Seq<char>>,
}

impl View for ReportedClient {
    type V = ClientView;

    open spec fn view(&self) -> ClientView {
        ClientView {
            hidden: self.hidden,
            x: self.x,
            y: self.y,
            width: self.width,
            height: self.height,
            class: crate::data_device::text_of(self.class),
            title: crate::data_device::text_of(self.title),
        }
    }
}

impl ClientView {
    /// Whether a logical point lies on the client.
    pub open spec fn holds(self, x: int, y: int) -> bool {
        in_rect(self.x as int, self.y as int, self.width as int, self.height as int, x, y)
    }

    /// The name of the client in diagnostics: its class, and its title where it has
    /// one.
    pub open spec fn label(self) -> Seq<char> {
        let class = match self.class {
            Some(name) => name,
            None => "native Wayland app"@,
        };
        match self.title {
            Some(title) => if title.len() == 0 {
                class
            } else {
                class + " / "@ + title
            },
            None => class,
        }
    }
}

/// The values of a list of reported clients.
pub open spec fn client_views(clients: Seq<ReportedClient>) -> Seq<ClientView> {
    Seq::new(clients.len(), |i: int| clients[i]@)
}

/// Whether a client is reported as hidden.
pub open spec fn hidden_member(json: JsonView) -> bool {
    match member_view(json, "hidden"@) {
        Some(inner) => truth_view(inner) == Some(true),
        None => false,
    }
}

/// A client, read from its report. Place and size are needed.
pub open spec fn client_of(json: JsonView) -> Option<ClientView> {
    match (pair_member(json, "at"@), pair_member(json, "size"@)) {
        (Some(at), Some(size)) => Some(
            ClientView {
                hidden: hidden_member(json),
                x: at.0,
                y: at.1,
                width: size.0,
                height: size.1,
                class: text_member(json, "class"@),
                title: text_member(json, "title"@),
            },
        ),
        _ => None,
    }
}

/// The clients of the first `n` reports; incomplete reports are passed over.
pub open spec fn clients_of(reports: Seq<JsonView>, n: int) -> Seq<ClientView>
    decreases n,
{
    if n <= 0 {
        seq![]
    } else {
        let before = clients_of(reports, n - 1);
        match client_of(reports[n - 1]) {
            Some(client) => before.push(client),
            None => before,
        }
    }
}

/// The clients that a document reports.
pub open spec fn reported_clients(document: Option<JsonView>) -> Seq<ClientView> {
    match document {
        Some(JsonView::List(reports)) => clients_of(reports, reports.len() as int),
        _ => seq![],
    }
}

fn read_client(report: &Value) -> (client: Option<ReportedClient>)
    ensures
        client is Some == client_of(json_contents(*report)) is Some,
        client matches Some(found) ==> Some(found@) == client_of(json_contents(*report)),
{
    let hidden = match member(report, "hidden") {
        Some(inner) => match as_truth(inner) {
            Some(flag) => flag,
            None => false,
        },
        None => false,
    };
    let at: (i32, i32) = match read_pair_member(report, "at") {
        Some(pair) => pair,
        None => {
            return None;
        },
    };
    let size: (i32, i32) = match read_pair_member(report, "size") {
        Some(pair) => pair,
        None => {
            return None;
        },
    };
    let class = read_text_member(report, "class");
    let title = read_text_member(report, "title");
    Some(
        ReportedClient { hidden, x: at.0, y: at.1, width: size.0, height: size.1, class, title },
    )
}

/// The clients that the compositor reports (`hyprctl clients -j`).
pub fn parse_hypr_clients(output: &Vec<u8>) -> (clients: Vec<ReportedClient>)
    ensures
        client_views(clients@) == reported_clients(json_document(output@)),
{
    let mut clients: Vec<ReportedClient> = Vec::new();
    assert(client_views(clients@) =~= seq![]);
    if let Some(document) = parse_json(output) {
        if let Some(reports) = as_list(&document) {
            let ghost views = items_view(reports@);
            for i in 0..reports.len()
                invariant
                    views == items_view(reports@),
                    client_views(clients@) == clients_of(views, i as int),
            {
                assert(views[i as int] == json_contents(reports@[i as int]));
                if let Some(client) = read_client(&reports[i]) {
                    let ghost before = clients@;
                    clients.push(client);
                    assert(client_views(clients@) =~= client_views(before).push(client@));
                }
            }
        }
    }
    clients
}

/// The label of the first client from index `i` on that is shown and holds a logical
/// point.
pub open spec fn label_at(clients: Seq<ClientView>, x: int, y: int, i: int) -> Option<Seq<char>>
    decreases clients.len() - i,
{
    if i < 0 || i >= clients.len() {
        None
    } else if !clients[i].hidden && clients[i].holds(x, y) {
        Some(clients[i].label())
    } else {
        label_at(clients, x, y, i + 1)
    }
}

impl ReportedClient {
    /// The name of the client in diagnostics.
    #[must_use]
    pub fn label(&self) -> (text: String)
        ensures
            text@ == self@.label(),
    {
        let class = match &self.class {
            Some(name) => name.clone(),
            None => "native Wayland app".to_owned(),
        };
        match &self.title {
            Some(title) => {
                if title.as_str().is_empty() {
                    class
                } else {
                    class.concat(" / ").concat(title.as_str())
                }
            },
            None => class,
        }
    }
}

/// The label of the native client at a logical point.
pub fn hypr_window_at(clients: &Vec<ReportedClient>, x: i32, y: i32) -> (label: Option<String>)
    ensures
        label is Some == label_at(client_views(clients@), x as int, y as int, 0) is Some,
        label matches Some(text) ==> Some(text@) == label_at(
            client_views(clients@),
            x as int,
            y as int,
            0,
        ),
{
    let ghost views = client_views(clients@);
    for i in 0..clients.len()
        invariant
            views == client_views(clients@),
            label_at(views, x as int, y as int, 0) == label_at(
                views,
                x as int,
                y as int,
                i as int,
            ),
    {
        let client = &clients[i];
        assert(views[i as int] == client@);
        let right: i64 = client.x as i64 + client.width as i64;
        let bottom: i64 = client.y as i64 + client.height as i64;
        if !client.hidden && x >= client.x && y >= client.y && (x as i64) < right && (y as i64)
            < bottom {
            return Some(client.label());
        }
    }
    None
}

/// The label of the native client at a point of the X11 screen, where a monitor holds the
/// point. `output` is what the compositor reports of its clients, and `shrink` gives a
/// base plus a distance that is divided by a scale.
pub fn hypr_window_at_x11_point<F: Copy, S: Fn(i32, i32, F) -> i32>(
    mapper: &DragCoordinateMapper<F>,
    output: &Vec<u8>,
    root_x: i16,
    root_y: i16,
    shrink: &S,
) -> (label: Option<String>)
    requires
        scales(*shrink),
    ensures
        label is Some == label_at_x11_point(
            *mapper,
            json_document(output@),
            root_x,
            root_y,
            *shrink,
        ) is Some,
        label matches Some(text) ==> Some(text@) == label_at_x11_point(
            *mapper,
            json_document(output@),
            root_x,
            root_y,
            *shrink,
        ),
        match mapper.logical_mapping(root_x as i32, root_y as i32) {
            Some(mapping) => exists|point: (i32, i32)|
                {
                    let named = label_at(
                        reported_clients(json_document(output@)),
                        point.0 as int,
                        point.1 as int,
                        0,
                    );
                    &&& #[trigger] maps_to(mapping, *shrink, root_x as i32, root_y as i32, point)
                    &&& label is Some == named is Some
                    &&& label matches Some(text) ==> Some(text@) == named
                },
            None => label is None,
        },
{
    match mapper.map_x11_to_logical(root_x as i32, root_y as i32, shrink) {
        Some((x, y)) => {
            let clients = parse_hypr_clients(output);
            hypr_window_at(&clients, x, y)
        },
        None => None,
    }
}

/// The label of the native client at a point of the X11 screen, where a monitor holds the
/// point and the compositor reports its clients in `document`.
pub open spec fn label_at_x11_point<F, S: Fn(i32, i32, F) -> i32>(
    mapper: DragCoordinateMapper<F>,
    document: Option<JsonView>,
    root_x: i16,
    root_y: i16,
    shrink: S,
) -> Option<Seq<char>> {
    match mapper.logical_mapping(root_x as i32, root_y as i32) {
        Some(mapping) => {
            let point = mapped_point(mapping, shrink, root_x as i32, root_y as i32);
            label_at(reported_clients(document), point.0 as int, point.1 as int, 0)
        },
        None => None,
    }
}

/// A report without a name, a place, a size or a scale is no monitor; else each value
/// is the one that is reported under its own name.
pub proof fn monitor_needs_all_its_parts(json: JsonView)
    ensures
        match monitor_of(json) {
            Some(monitor) => {
                &&& text_member(json, "name"@) == Some(monitor.name)
                &&& small_member(json, "x"@) == Some(monitor.x)
                &&& small_member(json, "y"@) == Some(monitor.y)
                &&& small_member(json, "width"@) == Some(monitor.width)
                &&& small_member(json, "height"@) == Some(monitor.height)
                &&& member_view(json, "scale"@) is Some
                &&& float_view(member_view(json, "scale"@)->0) == Some(monitor.scale_bits)
            },
            None => {
                ||| text_member(json, "name"@) is None
                ||| small_member(json, "x"@) is None
                ||| small_member(json, "y"@) is None
                ||| small_member(json, "width"@) is None
                ||| small_member(json, "height"@) is None
                ||| member_view(json, "scale"@) is None
                ||| float_view(member_view(json, "scale"@)->0) is None
            },
        },
{
}

/// A report without a place or a size is no client; else its values are those reported
/// under their own names. A client is shown unless it is reported as hidden.
pub proof fn client_needs_a_place_and_a_size(json: JsonView)
    ensures
        match client_of(json) {
            Some(client) => {
                &&& pair_member(json, "at"@) == Some((client.x, client.y))
                &&& pair_member(json, "size"@) == Some((client.width, client.height))
                &&& client.class == text_member(json, "class"@)
                &&& client.title == text_member(json, "title"@)
                &&& client.hidden <==> member_view(json, "hidden"@) is Some && truth_view(
                    member_view(json, "hidden"@)->0,
                ) == Some(true)
            },
            None => pair_member(json, "at"@) is None || pair_member(json, "size"@) is None,
        },
{
}

/// Lists are read report by report, in order: the report that follows the first `n`
/// adds its monitor or client at the end, or nothing where it is incomplete.
pub proof fn reports_are_read_in_order(reports: Seq<JsonView>, n: int, m: int)
    requires
        0 <= n < m <= reports.len(),
    ensures
        monitor_of(reports[n]) is Some ==> monitors_of(reports, n).len() < monitors_of(
            reports,
            m,
        ).len() && monitors_of(reports, m)[monitors_of(reports, n).len() as int] == monitor_of(
            reports[n],
        )->0,
        monitors_of(reports, n) == monitors_of(reports, m).take(
            monitors_of(reports, n).len() as int,
        ),
        monitors_of(reports, n).len() <= n,
        monitors_of(reports, n).len() <= monitors_of(reports, m).len(),
        client_of(reports[n]) is Some ==> clients_of(reports, n).len() < clients_of(
            reports,
            m,
        ).len() && clients_of(reports, m)[clients_of(reports, n).len() as int] == client_of(
            reports[n],
        )->0,
        clients_of(reports, n) == clients_of(reports, m).take(clients_of(reports, n).len() as int),
        clients_of(reports, n).len() <= n,
        clients_of(reports, n).len() <= clients_of(reports, m).len(),
    decreases m,
{
    if n > 0 {
        reports_are_read_in_order(reports, n - 1, n);
    }
    if m > n + 1 {
        reports_are_read_in_order(reports, n, m - 1);
        assert(monitors_of(reports, m - 1) =~= monitors_of(reports, m).take(
            monitors_of(reports, m - 1).len() as int,
        ));
        assert(clients_of(reports, m - 1) =~= clients_of(reports, m).take(
            clients_of(reports, m - 1).len() as int,
        ));
        assert(monitors_of(reports, n) =~= monitors_of(reports, m).take(
            monitors_of(reports, n).len() as int,
        ));
        assert(clients_of(reports, n) =~= clients_of(reports, m).take(
            clients_of(reports, n).len() as int,
        ));
    }
}

/// Every monitor and client of a list comes from a complete report of it.
pub proof fn nothing_is_read_that_was_not_reported(reports: Seq<JsonView>, n: int)
    requires
        0 <= n <= reports.len(),
    ensures
        forall|k: int|
            0 <= k < monitors_of(reports, n).len() ==> exists|i: int|
                0 <= i < n && monitor_of(#[trigger] reports[i]) == Some(
                    #[trigger] monitors_of(reports, n)[k],
                ),
        forall|k: int|
            0 <= k < clients_of(reports, n).len() ==> exists|i: int|
                0 <= i < n && client_of(#[trigger] reports[i]) == Some(
                    #[trigger] clients_of(reports, n)[k],
                ),
    decreases n,
{
    if n > 0 {
        nothing_is_read_that_was_not_reported(reports, n - 1);
        let before = monitors_of(reports, n - 1);
        assert forall|k: int| 0 <= k < monitors_of(reports, n).len() implies exists|i: int|
            0 <= i < n && monitor_of(#[trigger] reports[i]) == Some(
                #[trigger] monitors_of(reports, n)[k],
            ) by {
            if k < before.len() {
                assert(monitors_of(reports, n)[k] == before[k]);
                let i = choose|i: int|
                    0 <= i < n - 1 && monitor_of(#[trigger] reports[i]) == Some(before[k]);
                assert(monitor_of(reports[i]) == Some(monitors_of(reports, n)[k]));
            } else {
                assert(monitor_of(reports[n - 1]) == Some(monitors_of(reports, n)[k]));
            }
        }
        let earlier = clients_of(reports, n - 1);
        assert forall|k: int| 0 <= k < clients_of(reports, n).len() implies exists|i: int|
            0 <= i < n && client_of(#[trigger] reports[i]) == Some(
                #[trigger] clients_of(reports, n)[k],
            ) by {
            if k < earlier.len() {
                assert(clients_of(reports, n)[k] == earlier[k]);
                let i = choose|i: int|
                    0 <= i < n - 1 && client_of(#[trigger] reports[i]) == Some(earlier[k]);
                assert(client_of(reports[i]) == Some(clients_of(reports, n)[k]));
            } else {
                assert(client_of(reports[n - 1]) == Some(clients_of(reports, n)[k]));
            }
        }
    }
}

/// Only a list is read; of a list all reports are.
pub proof fn reports_stand_in_a_list(document: Option<JsonView>)
    ensures
        match document {
            Some(JsonView::List(reports)) => reported_monitors(document) == monitors_of(
                reports,
                reports.len() as int,
            ) && reported_clients(document) == clients_of(reports, reports.len() as int),
            _ => reported_monitors(document).len() == 0 && reported_clients(document).len() == 0,
        },
{
}

/// The X11 monitor of a name is the first of the list that has it.
pub proof fn monitors_are_found_by_name(monitors: Seq<PreviewMonitor>, name: Seq<char>, from: int)
    requires
        0 <= from <= monitors.len(),
    ensures
        match named_monitor(monitors, name, from) {
            Some(i) => from <= i < monitors.len() && monitors[i].name@ == name && forall|k: int|
                from <= k < i ==> (#[trigger] monitors[k]).name@ != name,
            None => forall|k: int|
                from <= k < monitors.len() ==> (#[trigger] monitors[k]).name@ != name,
        },
    decreases monitors.len() - from,
{
    if from < monitors.len() {
        monitors_are_found_by_name(monitors, name, from + 1);
    }
}

/// Each placed monitor is a reported one, at the corner of the first X11 monitor of the
/// same name.
pub proof fn monitors_are_placed_by_name(
    reported: Seq<MonitorView>,
    x11: Seq<PreviewMonitor>,
    n: int,
    k: int,
)
    requires
        0 <= n <= reported.len(),
        0 <= k < placed(reported, x11, n).len(),
    ensures
        exists|i: int, j: int|
            {
                &&& 0 <= i < n
                &&& 0 <= j < x11.len()
                &&& placed(reported, x11, n)[k].monitor == #[trigger] reported[i]
                &&& (#[trigger] x11[j]).name@ == reported[i].name
                &&& placed(reported, x11, n)[k].x11_x == x11[j].x
                &&& placed(reported, x11, n)[k].x11_y == x11[j].y
                &&& forall|l: int| 0 <= l < j ==> (#[trigger] x11[l]).name@ != reported[i].name
            },
    decreases n,
{
    if n > 0 {
        monitors_are_found_by_name(x11, reported[n - 1].name, 0);
        let before = placed(reported, x11, n - 1);
        if k < before.len() {
            assert(placed(reported, x11, n)[k] == before[k]);
            monitors_are_placed_by_name(reported, x11, n - 1, k);
        } else {
            let j = named_monitor(x11, reported[n - 1].name, 0)->0;
            assert(x11[j].name@ == reported[n - 1].name);
        }
    }
}

/// No reported monitor that X11 shows under its name is left out, and the order of the
/// reports is kept.
pub proof fn shown_monitors_are_placed_in_order(
    reported: Seq<MonitorView>,
    x11: Seq<PreviewMonitor>,
    n: int,
    m: int,
    j: int,
)
    requires
        0 <= n < m <= reported.len(),
    ensures
        0 <= j < x11.len() && x11[j].name@ == reported[n].name ==> placed(reported, x11, n).len()
            < placed(reported, x11, m).len() && placed(reported, x11, m)[placed(
            reported,
            x11,
            n,
        ).len() as int].monitor == reported[n],
        placed(reported, x11, n).len() <= placed(reported, x11, m).len(),
    decreases m,
{
    monitors_are_found_by_name(x11, reported[n].name, 0);
    if m > n + 1 {
        shown_monitors_are_placed_in_order(reported, x11, n, m - 1, j);
    }
}

/// The client at a point is the first of the list that is shown and that the point lies
/// on; it is called by its class, or "native Wayland app" where it has none, and by its
/// title where that is not empty.
pub proof fn first_shown_client_is_named(
    clients: Seq<ClientView>,
    x: int,
    y: int,
    from: int,
    i: int,
)
    requires
        0 <= from <= i < clients.len(),
        !clients[i].hidden,
        0 <= x - clients[i].x < clients[i].width,
        0 <= y - clients[i].y < clients[i].height,
        forall|k: int|
            from <= k < i ==> (#[trigger] clients[k]).hidden || !(0 <= x - clients[k].x
                < clients[k].width && 0 <= y - clients[k].y < clients[k].height),
    ensures
        ({
            let class = match clients[i].class {
                Some(name) => name,
                None => "native Wayland app"@,
            };
            label_at(clients, x, y, from) == Some(
                match clients[i].title {
                    Some(title) => if title.len() > 0 {
                        class + " / "@ + title
                    } else {
                        class
                    },
                    None => class,
                },
            )
        }),
    decreases i - from,
{
    if from < i {
        first_shown_client_is_named(clients, x, y, from + 1, i);
    }
}

/// Where no shown client lies at a point, none is named.
pub proof fn hidden_clients_are_not_named(clients: Seq<ClientView>, x: int, y: int, from: int)
    requires
        0 <= from <= clients.len(),
        forall|k: int|
            from <= k < clients.len() ==> (#[trigger] clients[k]).hidden || !(0 <= x - clients[k].x
                < clients[k].width && 0 <= y - clients[k].y < clients[k].height),
    ensures
        label_at(clients, x, y, from) is None,
    decreases clients.len() - from,
{
    if from < clients.len() {
        hidden_clients_are_not_named(clients, x, y, from + 1);
    }
}

} // verus!
