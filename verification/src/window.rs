//! The native window that a drag starts from.

use vstd::prelude::*;

use crate::platform::{DragBackendKind, DragEndpointKind, DragRoute};

verus! {

/// A native window, as far as a drag launcher tells them apart.
#[derive(Clone, Copy, Debug, PartialEq, Eq, Structural)]
pub enum WindowHandle {
    /// Xlib window id, or 0.
    Xlib(u64),
    /// XCB window id, or 0.
    Xcb(u32),
    /// Wayland surface; false when the pointer is null.
    Wayland(bool),
    /// AppKit view; false when the pointer is null.
    AppKit(bool),
    /// Win32 window; false when the handle is null.
    Win32(bool),
    /// WinRT window.
    WinRt,
    /// Any other window.
    Other,
}

/// Native window context required by platform drag launchers.
#[derive(Clone, Copy, Debug, PartialEq, Eq, Structural)]
pub struct DragWindow {
    window: WindowHandle,
}

impl DragWindow {
    /// The window.
    pub closed spec fn handle(self) -> WindowHandle {
        self.window
    }

    /// Build a drag window context.
    #[must_use]
    pub fn new(window: WindowHandle) -> (context: Self)
        ensures
            context.handle() == window,
    {
        DragWindow { window }
    }

    /// The window.
    #[must_use]
    pub fn window(&self) -> (window: WindowHandle)
        ensures
            window == self.handle(),
    {
        self.window
    }

    /// Endpoint kind inferred from the window.
    #[must_use]
    pub fn endpoint(&self) -> (endpoint: DragEndpointKind)
        ensures
            endpoint == (match self.handle() {
                WindowHandle::Xlib(_) | WindowHandle::Xcb(_) => DragEndpointKind::XwaylandWindow,
                WindowHandle::Wayland(_) => DragEndpointKind::WaylandSurface,
                _ => DragEndpointKind::Unknown,
            }),
    {
        match self.window {
            WindowHandle::Xlib(_) | WindowHandle::Xcb(_) => DragEndpointKind::XwaylandWindow,
            WindowHandle::Wayland(_) => DragEndpointKind::WaylandSurface,
            WindowHandle::AppKit(_)
            | WindowHandle::Win32(_)
            | WindowHandle::WinRt
            | WindowHandle::Other => DragEndpointKind::Unknown,
        }
    }

    /// The backend that carries drags from the window.
    pub open spec fn backend(self) -> DragBackendKind {
        match self.handle() {
            WindowHandle::Xlib(_) | WindowHandle::Xcb(_) => DragBackendKind::X11Xdnd,
            WindowHandle::Wayland(_) => DragBackendKind::WaylandDataDevice,
            WindowHandle::AppKit(_) => DragBackendKind::MacosAppKit,
            WindowHandle::Win32(_) | WindowHandle::WinRt => DragBackendKind::WindowsOle,
            WindowHandle::Other => DragBackendKind::Unsupported,
        }
    }

    /// The route that drags from the window take.
    pub open spec fn route(self) -> DragRoute {
        match self.handle() {
            WindowHandle::Xlib(_) | WindowHandle::Xcb(_) => DragRoute::XwaylandToXwayland,
            WindowHandle::Wayland(_) => DragRoute::WaylandToWayland,
            _ => DragRoute::Unsupported,
        }
    }

    /// Backend kind inferred from the window.
    #[must_use]
    pub fn backend_kind(&self) -> (kind: DragBackendKind)
        ensures
            kind == self.backend(),
    {
        match self.window {
            WindowHandle::Xlib(_) | WindowHandle::Xcb(_) => DragBackendKind::X11Xdnd,
            WindowHandle::Wayland(_) => DragBackendKind::WaylandDataDevice,
            WindowHandle::AppKit(_) => DragBackendKind::MacosAppKit,
            WindowHandle::Win32(_) | WindowHandle::WinRt => DragBackendKind::WindowsOle,
            WindowHandle::Other => DragBackendKind::Unsupported,
        }
    }

    /// Route inferred for this source window.
    #[must_use]
    pub fn source_route(&self) -> (route: DragRoute)
        ensures
            route == self.route(),
    {
        match self.window {
            WindowHandle::Xlib(_) | WindowHandle::Xcb(_) => DragRoute::XwaylandToXwayland,
            WindowHandle::Wayland(_) => DragRoute::WaylandToWayland,
            WindowHandle::AppKit(_)
            | WindowHandle::Win32(_)
            | WindowHandle::WinRt
            | WindowHandle::Other => DragRoute::Unsupported,
        }
    }
}

/// The route of a window is carried by the backend of the window, where the window
/// has a route at all.
pub proof fn route_and_backend_agree(window: DragWindow)
    requires
        window.route() != DragRoute::Unsupported,
    ensures
        window.route().carrier() == window.backend(),
{
}

/// X11 windows drag by XDND, Wayland surfaces through their data device, AppKit views
/// and Windows windows through their own systems, and nothing else at all. A route is
/// known for the first two only.
pub proof fn windows_drag_by_their_own_system(window: DragWindow)
    ensures
        window.backend() is X11Xdnd <==> window.handle() is Xlib || window.handle() is Xcb,
        window.backend() is WaylandDataDevice <==> window.handle() is Wayland,
        window.backend() is MacosAppKit <==> window.handle() is AppKit,
        window.backend() is WindowsOle <==> window.handle() is Win32 || window.handle() is WinRt,
        window.backend() is Unsupported <==> window.handle() is Other,
        window.route() is XwaylandToXwayland <==> window.handle() is Xlib || window.handle() is Xcb,
        window.route() is WaylandToWayland <==> window.handle() is Wayland,
        window.route() is Unsupported <==> !(window.handle() is Xlib || window.handle() is Xcb
            || window.handle() is Wayland),
{
}

} // verus!
