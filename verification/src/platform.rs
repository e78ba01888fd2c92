//! Platform backend route names and diagnostics.

use vstd::prelude::*;

verus! {

/// Native backend used to start a drag.
#[derive(Clone, Copy, Debug, PartialEq, Eq, Structural)]
pub enum DragBackendKind {
    X11Xdnd,
    WaylandDataDevice,
    WindowsOle,
    MacosAppKit,
    Unsupported,
}

impl DragBackendKind {
    /// The machine-readable name.
    pub open spec fn name(self) -> Seq<char> {
        match self {
            DragBackendKind::X11Xdnd => "x11_xdnd"@,
            DragBackendKind::WaylandDataDevice => "wayland_data_device"@,
            DragBackendKind::WindowsOle => "windows_ole"@,
            DragBackendKind::MacosAppKit => "macos_appkit"@,
            DragBackendKind::Unsupported => "unsupported"@,
        }
    }

    /// The human-readable name.
    pub open spec fn title(self) -> Seq<char> {
        match self {
            DragBackendKind::X11Xdnd => "X11/XWayland XDND"@,
            DragBackendKind::WaylandDataDevice => "native Wayland data-device"@,
            DragBackendKind::WindowsOle => "Windows OLE"@,
            DragBackendKind::MacosAppKit => "macOS AppKit"@,
            DragBackendKind::Unsupported => "unsupported backend"@,
        }
    }

    /// Stable machine-readable name.
    #[must_use]
    pub fn as_str(self) -> (text: &'static str)
        ensures
            text@ == self.name(),
    {
        match self {
            DragBackendKind::X11Xdnd => "x11_xdnd",
            DragBackendKind::WaylandDataDevice => "wayland_data_device",
            DragBackendKind::WindowsOle => "windows_ole",
            DragBackendKind::MacosAppKit => "macos_appkit",
            DragBackendKind::Unsupported => "unsupported",
        }
    }

    /// Human-readable backend summary.
    #[must_use]
    pub fn summary(self) -> (text: &'static str)
        ensures
            text@ == self.title(),
    {
        match self {
            DragBackendKind::X11Xdnd => "X11/XWayland XDND",
            DragBackendKind::WaylandDataDevice => "native Wayland data-device",
            DragBackendKind::WindowsOle => "Windows OLE",
            DragBackendKind::MacosAppKit => "macOS AppKit",
            DragBackendKind::Unsupported => "unsupported backend",
        }
    }
}

/// Source or expected target endpoint kind.
#[derive(Clone, Copy, Debug, PartialEq, Eq, Structural)]
pub enum DragEndpointKind {
    X11Window,
    XwaylandWindow,
    WaylandSurface,
    CompositorBridge,
    Unknown,
}

impl DragEndpointKind {
    /// The human-readable name.
    pub open spec fn title(self) -> Seq<char> {
        match self {
            DragEndpointKind::X11Window => "X11 window"@,
            DragEndpointKind::XwaylandWindow => "XWayland window"@,
            DragEndpointKind::WaylandSurface => "Wayland surface"@,
            DragEndpointKind::CompositorBridge => "compositor bridge"@,
            DragEndpointKind::Unknown => "unknown endpoint"@,
        }
    }

    /// Human-readable endpoint summary.
    #[must_use]
    pub fn summary(self) -> (text: &'static str)
        ensures
            text@ == self.title(),
    {
        match self {
            DragEndpointKind::X11Window => "X11 window",
            DragEndpointKind::XwaylandWindow => "XWayland window",
            DragEndpointKind::WaylandSurface => "Wayland surface",
            DragEndpointKind::CompositorBridge => "compositor bridge",
            DragEndpointKind::Unknown => "unknown endpoint",
        }
    }
}

/// High-level route a drag is expected to take.
#[derive(Clone, Copy, Debug, PartialEq, Eq, Structural)]
pub enum DragRoute {
    X11ToX11,
    XwaylandToXwayland,
    XwaylandToWaylandBridge,
    WaylandToWayland,
    WaylandToXwaylandBridge,
    Unsupported,
}

impl DragRoute {
    /// Whether the drag starts from an X11 or XWayland window.
    pub open spec fn starts_on_x11(self) -> bool {
        self is X11ToX11 || self is XwaylandToXwayland || self is XwaylandToWaylandBridge
    }

    /// Whether the drag starts from a native Wayland surface.
    pub open spec fn starts_on_wayland(self) -> bool {
        self is WaylandToWayland || self is WaylandToXwaylandBridge
    }

    /// The backend that carries the route: the one of the source side.
    pub open spec fn carrier(self) -> DragBackendKind {
        if self.starts_on_x11() {
            DragBackendKind::X11Xdnd
        } else if self.starts_on_wayland() {
            DragBackendKind::WaylandDataDevice
        } else {
            DragBackendKind::Unsupported
        }
    }

    /// The human-readable name.
    pub open spec fn title(self) -> Seq<char> {
        match self {
            DragRoute::X11ToX11 => "X11 source to X11 target through XDND"@,
            DragRoute::XwaylandToXwayland => "XWayland source to XWayland target through XDND"@,
            DragRoute::XwaylandToWaylandBridge =>
                "XWayland source to native Wayland target through compositor bridge"@,
            DragRoute::WaylandToWayland => "native Wayland source to native Wayland target"@,
            DragRoute::WaylandToXwaylandBridge =>
                "native Wayland source to XWayland target through compositor bridge"@,
            DragRoute::Unsupported => "unsupported drag route"@,
        }
    }

    /// Backend responsible for this route.
    #[must_use]
    pub fn backend(self) -> (kind: DragBackendKind)
        ensures
            kind == self.carrier(),
    {
        match self {
            DragRoute::X11ToX11
            | DragRoute::XwaylandToXwayland
            | DragRoute::XwaylandToWaylandBridge => DragBackendKind::X11Xdnd,
            DragRoute::WaylandToWayland | DragRoute::WaylandToXwaylandBridge => {
                DragBackendKind::WaylandDataDevice
            },
            DragRoute::Unsupported => DragBackendKind::Unsupported,
        }
    }

    /// Human-readable route summary.
    #[must_use]
    pub fn summary(self) -> (text: &'static str)
        ensures
            text@ == self.title(),
    {
        match self {
            DragRoute::X11ToX11 => "X11 source to X11 target through XDND",
            DragRoute::XwaylandToXwayland => "XWayland source to XWayland target through XDND",
            DragRoute::XwaylandToWaylandBridge => {
                "XWayland source to native Wayland target through compositor bridge"
            },
            DragRoute::WaylandToWayland => "native Wayland source to native Wayland target",
            DragRoute::WaylandToXwaylandBridge => {
                "native Wayland source to XWayland target through compositor bridge"
            },
            DragRoute::Unsupported => "unsupported drag route",
        }
    }
}

/// Backend route plan for diagnostics.
#[derive(Clone, Copy, Debug, PartialEq, Eq, Structural)]
pub struct DragBackendPlan {
    pub route: DragRoute,
    pub source: DragEndpointKind,
    pub expected_target: DragEndpointKind,
}

impl DragBackendPlan {
    /// The diagnostic line.
    pub open spec fn line(self) -> Seq<char> {
        self.route.title() + " via "@ + self.route.carrier().title() + "; source="@
            + self.source.title() + ", expected_target="@ + self.expected_target.title()
    }

    /// Build a route plan.
    #[must_use]
    pub fn new(
        route: DragRoute,
        source: DragEndpointKind,
        expected_target: DragEndpointKind,
    ) -> (plan: Self)
        ensures
            plan == (DragBackendPlan { route, source, expected_target }),
    {
        DragBackendPlan { route, source, expected_target }
    }

    /// Human-readable diagnostic summary.
    #[must_use]
    pub fn summary(&self) -> (text: String)
        ensures
            text@ == self.line(),
    {
        self.route.summary().to_owned().concat(" via ").concat(
            self.route.backend().summary(),
        ).concat("; source=").concat(self.source.summary()).concat(", expected_target=").concat(
            self.expected_target.summary(),
        )
    }
}

/// Completion status reported by a backend.
#[derive(Clone, Copy, Debug, PartialEq, Eq, Structural)]
pub enum DragCompletion {
    Confirmed,
    Inferred,
    Failed(DragFailureKind),
}

impl DragCompletion {
    /// The machine-readable name.
    pub open spec fn name(self) -> Seq<char> {
        match self {
            DragCompletion::Confirmed => "confirmed"@,
            DragCompletion::Inferred => "inferred"@,
            DragCompletion::Failed(_) => "failed"@,
        }
    }

    /// The human-readable name.
    pub open spec fn title(self) -> Seq<char> {
        match self {
            DragCompletion::Confirmed => "Drop completed"@,
            DragCompletion::Inferred => "Drop likely completed"@,
            DragCompletion::Failed(kind) => kind.title(),
        }
    }

    /// True when the backend considers the drag successful.
    #[must_use]
    pub fn is_success(self) -> (success: bool)
        ensures
            success == !(self is Failed),
    {
        match self {
            DragCompletion::Confirmed | DragCompletion::Inferred => true,
            DragCompletion::Failed(_) => false,
        }
    }

    /// Stable machine-readable name.
    #[must_use]
    pub fn as_str(self) -> (text: &'static str)
        ensures
            text@ == self.name(),
    {
        match self {
            DragCompletion::Confirmed => "confirmed",
            DragCompletion::Inferred => "inferred",
            DragCompletion::Failed(_) => "failed",
        }
    }

    /// Human-readable completion summary.
    #[must_use]
    pub fn summary(self) -> (text: &'static str)
        ensures
            text@ == self.title(),
    {
        match self {
            DragCompletion::Confirmed => "Drop completed",
            DragCompletion::Inferred => "Drop likely completed",
            DragCompletion::Failed(kind) => kind.summary(),
        }
    }
}

/// Common drag failure categories.
#[derive(Clone, Copy, Debug, PartialEq, Eq, Structural)]
pub enum DragFailureKind {
    NoTarget,
    BridgeRejected,
    TargetNoData,
    BackendUnavailable,
    Cancelled,
    Other,
}

impl DragFailureKind {
    /// The machine-readable name.
    pub open spec fn name(self) -> Seq<char> {
        match self {
            DragFailureKind::NoTarget => "no_target"@,
            DragFailureKind::BridgeRejected => "bridge_rejected"@,
            DragFailureKind::TargetNoData => "target_no_data"@,
            DragFailureKind::BackendUnavailable => "backend_unavailable"@,
            DragFailureKind::Cancelled => "cancelled"@,
            DragFailureKind::Other => "other"@,
        }
    }

    /// The human-readable name.
    pub open spec fn title(self) -> Seq<char> {
        match self {
            DragFailureKind::NoTarget => "No drop target was found"@,
            DragFailureKind::BridgeRejected => "The drop bridge rejected the drag"@,
            DragFailureKind::TargetNoData => "The target did not request the drag data"@,
            DragFailureKind::BackendUnavailable => "Drag-and-drop is unavailable on this backend"@,
            DragFailureKind::Cancelled => "Drag cancelled"@,
            DragFailureKind::Other => "Drop failed"@,
        }
    }

    /// Stable machine-readable name.
    #[must_use]
    pub fn as_str(self) -> (text: &'static str)
        ensures
            text@ == self.name(),
    {
        match self {
            DragFailureKind::NoTarget => "no_target",
            DragFailureKind::BridgeRejected => "bridge_rejected",
            DragFailureKind::TargetNoData => "target_no_data",
            DragFailureKind::BackendUnavailable => "backend_unavailable",
            DragFailureKind::Cancelled => "cancelled",
            DragFailureKind::Other => "other",
        }
    }

    /// Human-readable failure summary.
    #[must_use]
    pub fn summary(self) -> (text: &'static str)
        ensures
            text@ == self.title(),
    {
        match self {
            DragFailureKind::NoTarget => "No drop target was found",
            DragFailureKind::BridgeRejected => "The drop bridge rejected the drag",
            DragFailureKind::TargetNoData => "The target did not request the drag data",
            DragFailureKind::BackendUnavailable => "Drag-and-drop is unavailable on this backend",
            DragFailureKind::Cancelled => "Drag cancelled",
            DragFailureKind::Other => "Drop failed",
        }
    }
}

/// The machine-readable backend names are stable keys: no two backends share one.
pub proof fn backend_names_are_distinct(a: DragBackendKind, b: DragBackendKind)
    requires
        a.name() == b.name(),
    ensures
        a == b,
{
    reveal_strlit("x11_xdnd");
    reveal_strlit("wayland_data_device");
    reveal_strlit("windows_ole");
    reveal_strlit("macos_appkit");
    reveal_strlit("unsupported");
    assert("x11_xdnd"@.len() == 8);
    assert("wayland_data_device"@.len() == 19);
    assert("windows_ole"@.len() == 11 && "windows_ole"@[0] == 'w');
    assert("macos_appkit"@.len() == 12);
    assert("unsupported"@.len() == 11 && "unsupported"@[0] == 'u');
}

/// The machine-readable failure names are stable keys: no two failures share one.
pub proof fn failure_names_are_distinct(a: DragFailureKind, b: DragFailureKind)
    requires
        a.name() == b.name(),
    ensures
        a == b,
{
    reveal_strlit("no_target");
    reveal_strlit("bridge_rejected");
    reveal_strlit("target_no_data");
    reveal_strlit("backend_unavailable");
    reveal_strlit("cancelled");
    reveal_strlit("other");
    assert("no_target"@.len() == 9 && "no_target"@[0] == 'n');
    assert("bridge_rejected"@.len() == 15);
    assert("target_no_data"@.len() == 14);
    assert("backend_unavailable"@.len() == 19);
    assert("cancelled"@.len() == 9 && "cancelled"@[0] == 'c');
    assert("other"@.len() == 5);
}

/// A route is carried by the backend of its source side, whatever the target is.
pub proof fn route_is_carried_by_its_source_side(route: DragRoute)
    ensures
        route.carrier() is X11Xdnd <==> route.starts_on_x11(),
        route.carrier() is WaylandDataDevice <==> route.starts_on_wayland(),
        route.carrier() is Unsupported <==> route is Unsupported,
{
}

/// Each route names the backend of its source side, and only an unsupported one has none.
pub proof fn routes_have_their_backends()
    ensures
        DragRoute::X11ToX11.carrier() == DragBackendKind::X11Xdnd,
        DragRoute::XwaylandToXwayland.carrier() == DragBackendKind::X11Xdnd,
        DragRoute::XwaylandToWaylandBridge.carrier() == DragBackendKind::X11Xdnd,
        DragRoute::WaylandToWayland.carrier() == DragBackendKind::WaylandDataDevice,
        DragRoute::WaylandToXwaylandBridge.carrier() == DragBackendKind::WaylandDataDevice,
        DragRoute::Unsupported.carrier() == DragBackendKind::Unsupported,
{
}

/// What the user reads of a failed drag is the failure, not a success.
pub proof fn failures_read_as_failures(kind: DragFailureKind)
    ensures
        DragCompletion::Failed(kind).title() == kind.title(),
        DragCompletion::Failed(kind).name() == "failed"@,
        DragCompletion::Failed(kind).name() != DragCompletion::Confirmed.name(),
        DragCompletion::Failed(kind).name() != DragCompletion::Inferred.name(),
        DragCompletion::Confirmed.name() != DragCompletion::Inferred.name(),
{
    reveal_strlit("failed");
    reveal_strlit("confirmed");
    reveal_strlit("inferred");
    assert("failed"@.len() == 6);
    assert("confirmed"@.len() == 9);
    assert("inferred"@.len() == 8);
}

/// Different backends, endpoints, routes and failures have different names and titles.
pub proof fn platform_names_tell_values_apart(
    kind: DragBackendKind,
    other_kind: DragBackendKind,
    endpoint: DragEndpointKind,
    other_endpoint: DragEndpointKind,
    route: DragRoute,
    other_route: DragRoute,
    failure: DragFailureKind,
    other_failure: DragFailureKind,
)
    ensures
        kind.name() == other_kind.name() ==> kind == other_kind,
        kind.title() == other_kind.title() ==> kind == other_kind,
        endpoint.title() == other_endpoint.title() ==> endpoint == other_endpoint,
        route.title() == other_route.title() ==> route == other_route,
        failure.name() == other_failure.name() ==> failure == other_failure,
        failure.title() == other_failure.title() ==> failure == other_failure,
{
    reveal_strlit("x11_xdnd");
    reveal_strlit("wayland_data_device");
    reveal_strlit("windows_ole");
    reveal_strlit("macos_appkit");
    reveal_strlit("unsupported");
    if kind.name() == other_kind.name() {
        assert(kind.name().len() == other_kind.name().len());
        assert(kind.name()[0] == other_kind.name()[0]);
    }
    assert("unsupported"@[0] == 'u');
    assert("windows_ole"@[0] == 'w');
    reveal_strlit("X11/XWayland XDND");
    reveal_strlit("native Wayland data-device");
    reveal_strlit("Windows OLE");
    reveal_strlit("macOS AppKit");
    reveal_strlit("unsupported backend");
    if kind.title() == other_kind.title() {
        assert(kind.title().len() == other_kind.title().len());
    }
    reveal_strlit("X11 window");
    reveal_strlit("XWayland window");
    reveal_strlit("Wayland surface");
    reveal_strlit("compositor bridge");
    reveal_strlit("unknown endpoint");
    if endpoint.title() == other_endpoint.title() {
        assert(endpoint.title().len() == other_endpoint.title().len());
        assert(endpoint.title()[0] == other_endpoint.title()[0]);
    }
    assert("Wayland surface"@[0] == 'W');
    assert("XWayland window"@[0] == 'X');
    reveal_strlit("X11 source to X11 target through XDND");
    reveal_strlit("XWayland source to XWayland target through XDND");
    reveal_strlit("XWayland source to native Wayland target through compositor bridge");
    reveal_strlit("native Wayland source to native Wayland target");
    reveal_strlit("native Wayland source to XWayland target through compositor bridge");
    reveal_strlit("unsupported drag route");
    if route.title() == other_route.title() {
        assert(route.title().len() == other_route.title().len());
        assert(route.title()[0] == other_route.title()[0]);
    }
    assert("XWayland source to native Wayland target through compositor bridge"@[0] == 'X');
    assert("native Wayland source to XWayland target through compositor bridge"@[0] == 'n');
    reveal_strlit("no_target");
    reveal_strlit("bridge_rejected");
    reveal_strlit("target_no_data");
    reveal_strlit("backend_unavailable");
    reveal_strlit("cancelled");
    reveal_strlit("other");
    if failure.name() == other_failure.name() {
        assert(failure.name().len() == other_failure.name().len());
        assert(failure.name()[0] == other_failure.name()[0]);
    }
    assert("cancelled"@[0] == 'c');
    assert("no_target"@[0] == 'n');
    reveal_strlit("No drop target was found");
    reveal_strlit("The drop bridge rejected the drag");
    reveal_strlit("The target did not request the drag data");
    reveal_strlit("Drag-and-drop is unavailable on this backend");
    reveal_strlit("Drag cancelled");
    reveal_strlit("Drop failed");
    if failure.title() == other_failure.title() {
        assert(failure.title().len() == other_failure.title().len());
    }
}

/// A backend is known by its name.
pub proof fn backends_are_known_by_their_names(kind: DragBackendKind)
    ensures
        kind.name() == "x11_xdnd"@ <==> kind is X11Xdnd,
        kind.name() == "wayland_data_device"@ <==> kind is WaylandDataDevice,
        kind.name() == "windows_ole"@ <==> kind is WindowsOle,
        kind.name() == "macos_appkit"@ <==> kind is MacosAppKit,
        kind.name() == "unsupported"@ <==> kind is Unsupported,
{
    reveal_strlit("x11_xdnd");
    reveal_strlit("wayland_data_device");
    reveal_strlit("windows_ole");
    reveal_strlit("macos_appkit");
    reveal_strlit("unsupported");
    assert("x11_xdnd"@.len() == 8);
    assert("wayland_data_device"@.len() == 19);
    assert("windows_ole"@.len() == 11);
    assert("macos_appkit"@.len() == 12);
    assert("unsupported"@.len() == 11);
    assert("unsupported"@[0] == 'u');
    assert("windows_ole"@[0] == 'w');
}

/// A backend is known by its title.
pub proof fn backends_are_known_by_their_titles(kind: DragBackendKind)
    ensures
        kind.title() == "X11/XWayland XDND"@ <==> kind is X11Xdnd,
        kind.title() == "native Wayland data-device"@ <==> kind is WaylandDataDevice,
        kind.title() == "Windows OLE"@ <==> kind is WindowsOle,
        kind.title() == "macOS AppKit"@ <==> kind is MacosAppKit,
        kind.title() == "unsupported backend"@ <==> kind is Unsupported,
{
    reveal_strlit("X11/XWayland XDND");
    reveal_strlit("native Wayland data-device");
    reveal_strlit("Windows OLE");
    reveal_strlit("macOS AppKit");
    reveal_strlit("unsupported backend");
    assert("X11/XWayland XDND"@.len() == 17);
    assert("native Wayland data-device"@.len() == 26);
    assert("Windows OLE"@.len() == 11);
    assert("macOS AppKit"@.len() == 12);
    assert("unsupported backend"@.len() == 19);
}

/// An endpoint is known by its title.
pub proof fn endpoints_are_known_by_their_titles(endpoint: DragEndpointKind)
    ensures
        endpoint.title() == "X11 window"@ <==> endpoint is X11Window,
        endpoint.title() == "XWayland window"@ <==> endpoint is XwaylandWindow,
        endpoint.title() == "Wayland surface"@ <==> endpoint is WaylandSurface,
        endpoint.title() == "compositor bridge"@ <==> endpoint is CompositorBridge,
        endpoint.title() == "unknown endpoint"@ <==> endpoint is Unknown,
{
    reveal_strlit("X11 window");
    reveal_strlit("XWayland window");
    reveal_strlit("Wayland surface");
    reveal_strlit("compositor bridge");
    reveal_strlit("unknown endpoint");
    assert("X11 window"@.len() == 10);
    assert("XWayland window"@.len() == 15);
    assert("Wayland surface"@.len() == 15);
    assert("compositor bridge"@.len() == 17);
    assert("unknown endpoint"@.len() == 16);
    assert("Wayland surface"@[0] == 'W');
    assert("XWayland window"@[0] == 'X');
}

/// A route is known by its title.
pub proof fn routes_are_known_by_their_titles(route: DragRoute)
    ensures
        route.title() == "X11 source to X11 target through XDND"@ <==> route is X11ToX11,
        route.title() == "XWayland source to XWayland target through XDND"@ <==> route is XwaylandToXwayland,
        route.title() == "XWayland source to native Wayland target through compositor bridge"@ <==> route is XwaylandToWaylandBridge,
        route.title() == "native Wayland source to native Wayland target"@ <==> route is WaylandToWayland,
        route.title() == "native Wayland source to XWayland target through compositor bridge"@ <==> route is WaylandToXwaylandBridge,
        route.title() == "unsupported drag route"@ <==> route is Unsupported,
{
    reveal_strlit("X11 source to X11 target through XDND");
    reveal_strlit("XWayland source to XWayland target through XDND");
    reveal_strlit("XWayland source to native Wayland target through compositor bridge");
    reveal_strlit("native Wayland source to native Wayland target");
    reveal_strlit("native Wayland source to XWayland target through compositor bridge");
    reveal_strlit("unsupported drag route");
    assert("X11 source to X11 target through XDND"@.len() == 37);
    assert("XWayland source to XWayland target through XDND"@.len() == 47);
    assert("XWayland source to native Wayland target through compositor bridge"@.len() == 66);
    assert("native Wayland source to native Wayland target"@.len() == 46);
    assert("native Wayland source to XWayland target through compositor bridge"@.len() == 66);
    assert("unsupported drag route"@.len() == 22);
    assert("XWayland source to native Wayland target through compositor bridge"@[0] == 'X');
    assert("native Wayland source to XWayland target through compositor bridge"@[0] == 'n');
}

/// A failure is known by its name.
pub proof fn failures_are_known_by_their_names(failure: DragFailureKind)
    ensures
        failure.name() == "no_target"@ <==> failure is NoTarget,
        failure.name() == "bridge_rejected"@ <==> failure is BridgeRejected,
        failure.name() == "target_no_data"@ <==> failure is TargetNoData,
        failure.name() == "backend_unavailable"@ <==> failure is BackendUnavailable,
        failure.name() == "cancelled"@ <==> failure is Cancelled,
        failure.name() == "other"@ <==> failure is Other,
{
    reveal_strlit("no_target");
    reveal_strlit("bridge_rejected");
    reveal_strlit("target_no_data");
    reveal_strlit("backend_unavailable");
    reveal_strlit("cancelled");
    reveal_strlit("other");
    assert("no_target"@.len() == 9);
    assert("bridge_rejected"@.len() == 15);
    assert("target_no_data"@.len() == 14);
    assert("backend_unavailable"@.len() == 19);
    assert("cancelled"@.len() == 9);
    assert("other"@.len() == 5);
    assert("cancelled"@[0] == 'c');
    assert("no_target"@[0] == 'n');
}

/// A failure is known by its title.
pub proof fn failures_are_known_by_their_titles(failure: DragFailureKind)
    ensures
        failure.title() == "No drop target was found"@ <==> failure is NoTarget,
        failure.title() == "The drop bridge rejected the drag"@ <==> failure is BridgeRejected,
        failure.title() == "The target did not request the drag data"@ <==> failure is TargetNoData,
        failure.title() == "Drag-and-drop is unavailable on this backend"@ <==> failure is BackendUnavailable,
        failure.title() == "Drag cancelled"@ <==> failure is Cancelled,
        failure.title() == "Drop failed"@ <==> failure is Other,
{
    reveal_strlit("No drop target was found");
    reveal_strlit("The drop bridge rejected the drag");
    reveal_strlit("The target did not request the drag data");
    reveal_strlit("Drag-and-drop is unavailable on this backend");
    reveal_strlit("Drag cancelled");
    reveal_strlit("Drop failed");
    assert("No drop target was found"@.len() == 24);
    assert("The drop bridge rejected the drag"@.len() == 33);
    assert("The target did not request the drag data"@.len() == 40);
    assert("Drag-and-drop is unavailable on this backend"@.len() == 44);
    assert("Drag cancelled"@.len() == 14);
    assert("Drop failed"@.len() == 11);
}

/// The line of a plan starts with the route and the backend that carries it, and ends
/// with the source and the expected target.
pub proof fn plan_line_names_route_and_ends(plan: DragBackendPlan)
    ensures
        ({
            let start = plan.route.title() + " via "@ + plan.route.carrier().title();
            let end = "; source="@ + plan.source.title() + ", expected_target="@
                + plan.expected_target.title();
            &&& plan.line().len() == start.len() + end.len()
            &&& plan.line().take(start.len() as int) == start
            &&& plan.line().skip(start.len() as int) == end
        }),
{
    let start = plan.route.title() + " via "@ + plan.route.carrier().title();
    let end = "; source="@ + plan.source.title() + ", expected_target="@
        + plan.expected_target.title();
    assert(plan.line() =~= start + end);
    assert(plan.line().take(start.len() as int) =~= start);
    assert(plan.line().skip(start.len() as int) =~= end);
}

} // verus!
