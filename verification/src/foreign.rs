//! Wayland windows that belong to a host.

use vstd::prelude::*;

verus! {

/// A display handle, as far as a Wayland parent tells them apart.
#[derive(Clone, Copy, Debug, PartialEq, Eq, Structural)]
pub enum DisplayHandle {
    /// Wayland display; false when the pointer is null.
    Wayland(bool),
    /// Any other display.
    Other,
}

/// Why a host window is of no use as a Wayland parent. Handles are given as shown
/// in diagnostics.
#[derive(Debug)]
pub enum ForeignWaylandParentError {
    MissingDisplay,
    MissingSurface,
    InvalidDisplay,
    InvalidSurface,
    UnsupportedDisplayHandle(String),
    UnsupportedWindowHandle(String),
}

impl ForeignWaylandParentError {
    /// The text of the error.
    pub open spec fn text(self) -> Seq<char> {
        match self {
            ForeignWaylandParentError::MissingDisplay => "Wayland parent is missing wl_display"@,
            ForeignWaylandParentError::MissingSurface => "Wayland parent is missing wl_surface"@,
            ForeignWaylandParentError::InvalidDisplay => "Wayland parent wl_display is invalid"@,
            ForeignWaylandParentError::InvalidSurface => "Wayland parent wl_surface is invalid"@,
            ForeignWaylandParentError::UnsupportedDisplayHandle(handle) =>
                "unsupported parent display handle: "@ + handle@,
            ForeignWaylandParentError::UnsupportedWindowHandle(handle) =>
                "unsupported parent window handle: "@ + handle@,
        }
    }

    /// The text of the error.
    #[must_use]
    pub fn message(&self) -> (text: String)
        ensures
            text@ == self.text(),
    {
        match self {
            ForeignWaylandParentError::MissingDisplay => {
                "Wayland parent is missing wl_display".to_owned()
            },
            ForeignWaylandParentError::MissingSurface => {
                "Wayland parent is missing wl_surface".to_owned()
            },
            ForeignWaylandParentError::InvalidDisplay => {
                "Wayland parent wl_display is invalid".to_owned()
            },
            ForeignWaylandParentError::InvalidSurface => {
                "Wayland parent wl_surface is invalid".to_owned()
            },
            ForeignWaylandParentError::UnsupportedDisplayHandle(handle) => {
                "unsupported parent display handle: ".to_owned().concat(handle.as_str())
            },
            ForeignWaylandParentError::UnsupportedWindowHandle(handle) => {
                "unsupported parent window handle: ".to_owned().concat(handle.as_str())
            },
        }
    }
}

/// Check the handles of a host window. `window` is false when the surface pointer
/// is null, and `None` for a window that is not a Wayland window.
///
/// # Errors
///
/// Fails when a handle is not a Wayland handle or is null.
pub fn check_parent_handles(
    display: DisplayHandle,
    window: Option<bool>,
    shown_display: &str,
    shown_window: &str,
) -> (checked: Result<(), ForeignWaylandParentError>)
    ensures
        match (display, window) {
            (DisplayHandle::Other, _) => checked matches Err(
                ForeignWaylandParentError::UnsupportedDisplayHandle(handle),
            ) && handle@ == shown_display@,
            (DisplayHandle::Wayland(_), None) => checked matches Err(
                ForeignWaylandParentError::UnsupportedWindowHandle(handle),
            ) && handle@ == shown_window@,
            (DisplayHandle::Wayland(false), Some(_)) => checked == Err::<
                (),
                ForeignWaylandParentError,
            >(ForeignWaylandParentError::MissingDisplay),
            (DisplayHandle::Wayland(true), Some(false)) => checked == Err::<
                (),
                ForeignWaylandParentError,
            >(ForeignWaylandParentError::MissingSurface),
            (DisplayHandle::Wayland(true), Some(true)) => checked is Ok,
        },
{
    match display {
        DisplayHandle::Other => Err(
            ForeignWaylandParentError::UnsupportedDisplayHandle(shown_display.to_owned()),
        ),
        DisplayHandle::Wayland(has_display) => match window {
            None => Err(
                ForeignWaylandParentError::UnsupportedWindowHandle(shown_window.to_owned()),
            ),
            Some(has_surface) => {
                if !has_display {
                    Err(ForeignWaylandParentError::MissingDisplay)
                } else if !has_surface {
                    Err(ForeignWaylandParentError::MissingSurface)
                } else {
                    Ok(())
                }
            },
        },
    }
}

} // verus!
