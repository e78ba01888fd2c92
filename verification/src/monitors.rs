//! Monitors, and the pixel spaces that pointer positions are given in.
//!
//! A scaled Wayland desktop has two spaces: logical points, and the X11 pixels of
//! XWayland windows. Pointer positions of the X11 server are in X11 pixels already:
//! targets are looked up, and the preview is placed, at the position as it is. Scale
//! factors are of any type; how a distance is scaled is given as a function.

use vstd::prelude::*;

use crate::pointer::{primary_down, primary_held};
use crate::text::{
    is_switched_on, join_texts, joined, lossy_text, read_lossy, same_text, signed_decimal,
    signed_decimal_text, switches_on, texts,
};
use crate::xdnd::{ButtonRelease, PointerSample};

verus! {

/// Offset of the preview from the cursor, in X11 pixels (no spring follow).
pub const PREVIEW_OFFSET_X: i32 = 20;

/// Offset of the preview from the cursor, in X11 pixels (no spring follow).
pub const PREVIEW_OFFSET_Y: i32 = 22;

/// Distance that the preview keeps from the far edges of the screen.
pub const PREVIEW_MARGIN: i32 = 8;

/// Width of a monitor that an environment scale applies to.
pub const ENLARGED_MONITOR_WIDTH: i32 = 3000;

/// A monitor in X11 pixels.
#[derive(Clone, Debug)]
pub struct PreviewMonitor {
    pub name: String,
    pub x: i32,
    pub y: i32,
    pub width: i32,
    pub height: i32,
}

/// Whether a point lies in a rectangle.
pub open spec fn in_rect(x: int, y: int, width: int, height: int, px: int, py: int) -> bool {
    x <= px < x + width && y <= py < y + height
}

fn rect_contains(x: i32, y: i32, width: i32, height: i32, px: i32, py: i32) -> (inside: bool)
    ensures
        inside == in_rect(x as int, y as int, width as int, height as int, px as int, py as int),
{
    let right: i64 = x as i64 + width as i64;
    let bottom: i64 = y as i64 + height as i64;
    px >= x && py >= y && (px as i64) < right && (py as i64) < bottom
}

impl PreviewMonitor {
    /// Whether a point lies on the monitor.
    pub open spec fn holds(self, x: int, y: int) -> bool {
        in_rect(self.x as int, self.y as int, self.width as int, self.height as int, x, y)
    }

    /// Whether a point lies on the monitor.
    #[must_use]
    pub fn contains(&self, x: i32, y: i32) -> (inside: bool)
        ensures
            inside == self.holds(x as int, y as int),
    {
        rect_contains(self.x, self.y, self.width, self.height, x, y)
    }
}

/// A monitor of a scaled desktop, in logical points, with its place in X11 pixels.
#[derive(Clone, Debug)]
pub struct HyprMonitor<F> {
    pub name: String,
    pub x: i32,
    pub y: i32,
    /// Size in X11 pixels.
    pub width: i32,
    pub height: i32,
    /// Size in logical points: the size in X11 pixels, divided by the scale.
    pub logical_width: i32,
    pub logical_height: i32,
    pub scale: F,
    /// Whether the scale is noticeably above 1.
    pub enlarged: bool,
    pub x11_x: i32,
    pub x11_y: i32,
}

impl<F> HyprMonitor<F> {
    /// Whether a logical point lies on the monitor.
    pub open spec fn holds_logical(self, x: int, y: int) -> bool {
        in_rect(
            self.x as int,
            self.y as int,
            self.logical_width as int,
            self.logical_height as int,
            x,
            y,
        )
    }

    /// Whether an X11 pixel lies on the monitor.
    pub open spec fn holds_x11(self, x: int, y: int) -> bool {
        in_rect(self.x11_x as int, self.x11_y as int, self.width as int, self.height as int, x, y)
    }

    /// Whether a logical point lies on the monitor.
    #[must_use]
    pub fn contains_logical(&self, x: i32, y: i32) -> (inside: bool)
        ensures
            inside == self.holds_logical(x as int, y as int),
    {
        rect_contains(self.x, self.y, self.logical_width, self.logical_height, x, y)
    }

    /// Whether an X11 pixel lies on the monitor.
    #[must_use]
    pub fn contains_x11(&self, x: i32, y: i32) -> (inside: bool)
        ensures
            inside == self.holds_x11(x as int, y as int),
    {
        rect_contains(self.x11_x, self.x11_y, self.width, self.height, x, y)
    }
}

/// The monitors of a desktop.
#[derive(Clone, Debug)]
pub struct DragCoordinateMapper<F> {
    pub x11_monitors: Vec<PreviewMonitor>,
    pub hypr_monitors: Vec<HyprMonitor<F>>,
    pub env_scale: F,
    /// Whether the scale of the environment is above 1.
    pub env_enlarges: bool,
}

/// The first monitor of a list that holds an X11 pixel, from index `i` on.
pub open spec fn first_monitor(monitors: Seq<PreviewMonitor>, x: int, y: int, i: int) -> Option<int>
    decreases monitors.len() - i,
{
    if i < 0 || i >= monitors.len() {
        None
    } else if monitors[i].holds(x, y) {
        Some(i)
    } else {
        first_monitor(monitors, x, y, i + 1)
    }
}

/// The first wide monitor of a list that holds an X11 pixel, from index `i` on.
pub open spec fn first_wide_monitor(
    monitors: Seq<PreviewMonitor>,
    x: int,
    y: int,
    i: int,
) -> Option<int>
    decreases monitors.len() - i,
{
    if i < 0 || i >= monitors.len() {
        None
    } else if monitors[i].holds(x, y) && monitors[i].width >= ENLARGED_MONITOR_WIDTH {
        Some(i)
    } else {
        first_wide_monitor(monitors, x, y, i + 1)
    }
}

/// The first monitor of a list that holds a logical point, from index `i` on.
pub open spec fn first_logical<F>(monitors: Seq<HyprMonitor<F>>, x: int, y: int, i: int) -> Option<
    int,
>
    decreases monitors.len() - i,
{
    if i < 0 || i >= monitors.len() {
        None
    } else if monitors[i].holds_logical(x, y) {
        Some(i)
    } else {
        first_logical(monitors, x, y, i + 1)
    }
}

/// The first monitor of a list whose X11 pixels hold a pixel, from index `i` on.
pub open spec fn first_x11<F>(monitors: Seq<HyprMonitor<F>>, x: int, y: int, i: int) -> Option<int>
    decreases monitors.len() - i,
{
    if i < 0 || i >= monitors.len() {
        None
    } else if monitors[i].holds_x11(x, y) {
        Some(i)
    } else {
        first_x11(monitors, x, y, i + 1)
    }
}

/// How a point is mapped.
pub enum PointMapping<F> {
    /// Not at all.
    Identity,
    /// Each coordinate is the base plus a scaled distance.
    Scaled { base_x: i32, base_y: i32, dx: i32, dy: i32, scale: F },
}

/// Whether a function scales any distance, and always in the same way.
pub open spec fn scales<F, S: Fn(i32, i32, F) -> i32>(stretch: S) -> bool {
    &&& forall|base: i32, distance: i32, scale: F| #[trigger]
        call_requires(stretch, (base, distance, scale))
    &&& forall|base: i32, distance: i32, scale: F, one: i32, other: i32|
        #[trigger] call_ensures(stretch, (base, distance, scale), one) && #[trigger] call_ensures(
            stretch,
            (base, distance, scale),
            other,
        ) ==> one == other
}

/// The point that a mapping gives.
pub open spec fn mapped_point<F, S: Fn(i32, i32, F) -> i32>(
    mapping: PointMapping<F>,
    stretch: S,
    x: i32,
    y: i32,
) -> (i32, i32) {
    match mapping {
        PointMapping::Identity => (x, y),
        PointMapping::Scaled { base_x, base_y, dx, dy, scale } => (
            choose|moved: i32| call_ensures(stretch, (base_x, dx, scale), moved),
            choose|moved: i32| call_ensures(stretch, (base_y, dy, scale), moved),
        ),
    }
}

/// Whether a function takes a point where a mapping says.
pub open spec fn maps_to<F, S: Fn(i32, i32, F) -> i32>(
    mapping: PointMapping<F>,
    stretch: S,
    x: i32,
    y: i32,
    point: (i32, i32),
) -> bool {
    match mapping {
        PointMapping::Identity => point == (x, y),
        PointMapping::Scaled { base_x, base_y, dx, dy, scale } => {
            &&& call_ensures(stretch, (base_x, dx, scale), point.0)
            &&& call_ensures(stretch, (base_y, dy, scale), point.1)
        },
    }
}

impl<F> DragCoordinateMapper<F> {
    /// Whether points are mapped: as the environment says, else on scaled desktops.
    pub open spec fn remaps(self, forced: Option<bool>) -> bool {
        match forced {
            Some(on) => on,
            None => self.hypr_monitors@.len() > 0,
        }
    }

    /// How a point is mapped from logical points to X11 pixels.
    pub open spec fn mapping(self, forced: Option<bool>, x: i32, y: i32) -> PointMapping<F> {
        if !self.remaps(forced) {
            PointMapping::Identity
        } else {
            let scaled = match first_logical(self.hypr_monitors@, x as int, y as int, 0) {
                Some(i) => {
                    let monitor = self.hypr_monitors@[i];
                    let same_name = match first_monitor(self.x11_monitors@, x as int, y as int, 0) {
                        Some(k) => self.x11_monitors@[k].name@ == monitor.name@,
                        None => false,
                    };
                    if monitor.enlarged || !same_name {
                        Some(
                            PointMapping::Scaled {
                                base_x: monitor.x11_x,
                                base_y: monitor.x11_y,
                                dx: (x - monitor.x) as i32,
                                dy: (y - monitor.y) as i32,
                                scale: monitor.scale,
                            },
                        )
                    } else {
                        None
                    }
                },
                None => None,
            };
            match scaled {
                Some(mapping) => mapping,
                None => if self.hypr_monitors@.len() > 0 || !self.env_enlarges {
                    PointMapping::Identity
                } else {
                    match first_wide_monitor(self.x11_monitors@, x as int, y as int, 0) {
                        Some(i) => PointMapping::Scaled {
                            base_x: self.x11_monitors@[i].x,
                            base_y: self.x11_monitors@[i].y,
                            dx: (x - self.x11_monitors@[i].x) as i32,
                            dy: (y - self.x11_monitors@[i].y) as i32,
                            scale: self.env_scale,
                        },
                        None => PointMapping::Identity,
                    }
                },
            }
        }
    }

    /// How an X11 pixel is mapped to logical points, where a monitor holds it.
    pub open spec fn logical_mapping(self, x: i32, y: i32) -> Option<PointMapping<F>> {
        match first_x11(self.hypr_monitors@, x as int, y as int, 0) {
            Some(i) => {
                let monitor = self.hypr_monitors@[i];
                Some(
                    PointMapping::Scaled {
                        base_x: monitor.x,
                        base_y: monitor.y,
                        dx: (x - monitor.x11_x) as i32,
                        dy: (y - monitor.x11_y) as i32,
                        scale: monitor.scale,
                    },
                )
            },
            None => None,
        }
    }

    /// Take the monitors of a desktop.
    #[must_use]
    pub fn new(
        x11_monitors: Vec<PreviewMonitor>,
        hypr_monitors: Vec<HyprMonitor<F>>,
        env_scale: F,
        env_enlarges: bool,
    ) -> (mapper: Self)
        ensures
            mapper == (DragCoordinateMapper {
                x11_monitors,
                hypr_monitors,
                env_scale,
                env_enlarges,
            }),
    {
        DragCoordinateMapper { x11_monitors, hypr_monitors, env_scale, env_enlarges }
    }

    /// Whether points are mapped. `forced` is what `AUDIO_PLUGIN_DND_PREVIEW_REMAP`
    /// says.
    #[must_use]
    pub fn coordinate_remap_enabled(&self, forced: Option<bool>) -> (remaps: bool)
        ensures
            remaps == self.remaps(forced),
    {
        match forced {
            Some(on) => on,
            None => self.hypr_monitors.len() > 0,
        }
    }

    fn find_monitor(&self, x: i32, y: i32) -> (found: Option<usize>)
        ensures
            match first_monitor(self.x11_monitors@, x as int, y as int, 0) {
                Some(i) => found is Some && found->0 as int == i && 0 <= i < self.x11_monitors@.len(),
                None => found is None,
            },
    {
        for i in 0..self.x11_monitors.len()
            invariant
                first_monitor(self.x11_monitors@, x as int, y as int, 0) == first_monitor(
                    self.x11_monitors@,
                    x as int,
                    y as int,
                    i as int,
                ),
        {
            if self.x11_monitors[i].contains(x, y) {
                return Some(i);
            }
        }
        None
    }

    fn find_wide_monitor(&self, x: i32, y: i32) -> (found: Option<usize>)
        ensures
            match first_wide_monitor(self.x11_monitors@, x as int, y as int, 0) {
                Some(i) => found is Some && found->0 as int == i && 0 <= i < self.x11_monitors@.len()
                    && self.x11_monitors@[i].holds(x as int, y as int),
                None => found is None,
            },
    {
        for i in 0..self.x11_monitors.len()
            invariant
                first_wide_monitor(self.x11_monitors@, x as int, y as int, 0)
                    == first_wide_monitor(self.x11_monitors@, x as int, y as int, i as int),
        {
            if self.x11_monitors[i].contains(x, y) && self.x11_monitors[i].width
                >= ENLARGED_MONITOR_WIDTH {
                return Some(i);
            }
        }
        None
    }

    fn find_logical(&self, x: i32, y: i32) -> (found: Option<usize>)
        ensures
            match first_logical(self.hypr_monitors@, x as int, y as int, 0) {
                Some(i) => found is Some && found->0 as int == i && 0 <= i < self.hypr_monitors@.len()
                    && self.hypr_monitors@[i].holds_logical(x as int, y as int),
                None => found is None,
            },
    {
        for i in 0..self.hypr_monitors.len()
            invariant
                first_logical(self.hypr_monitors@, x as int, y as int, 0) == first_logical(
                    self.hypr_monitors@,
                    x as int,
                    y as int,
                    i as int,
                ),
        {
            if self.hypr_monitors[i].contains_logical(x, y) {
                return Some(i);
            }
        }
        None
    }

    fn find_x11(&self, x: i32, y: i32) -> (found: Option<usize>)
        ensures
            match first_x11(self.hypr_monitors@, x as int, y as int, 0) {
                Some(i) => found is Some && found->0 as int == i && 0 <= i < self.hypr_monitors@.len()
                    && self.hypr_monitors@[i].holds_x11(x as int, y as int),
                None => found is None,
            },
    {
        for i in 0..self.hypr_monitors.len()
            invariant
                first_x11(self.hypr_monitors@, x as int, y as int, 0) == first_x11(
                    self.hypr_monitors@,
                    x as int,
                    y as int,
                    i as int,
                ),
        {
            if self.hypr_monitors[i].contains_x11(x, y) {
                return Some(i);
            }
        }
        None
    }

    /// Where drop targets are looked up: the position as it is.
    ///
    /// Positions of the X11 server are X11 pixels already, the space of window
    /// placement and of `XdndPosition`. Mapping them would scale them twice, and park
    /// the drop hotspot far from the cursor.
    #[must_use]
    pub fn target_point(&self, x: i32, y: i32) -> (point: (i32, i32))
        ensures
            point == (x, y),
    {
        (x, y)
    }
}

impl<F: Copy> DragCoordinateMapper<F> {
    /// Map a point from logical points to X11 pixels. `stretch` gives a base plus a
    /// distance that is multiplied by a scale.
    #[must_use]
    pub fn map_point<S: Fn(i32, i32, F) -> i32>(
        &self,
        forced: Option<bool>,
        x: i32,
        y: i32,
        stretch: &S,
    ) -> (point: (i32, i32))
        requires
            scales(*stretch),
        ensures
            maps_to(self.mapping(forced, x, y), *stretch, x, y, point),
            point == mapped_point(self.mapping(forced, x, y), *stretch, x, y),
    {
        if !self.coordinate_remap_enabled(forced) {
            return (x, y);
        }
        if let Some(i) = self.find_logical(x, y) {
            let monitor = &self.hypr_monitors[i];
            let same_name = match self.find_monitor(x, y) {
                Some(k) => same_text(
                    self.x11_monitors[k].name.as_str(),
                    monitor.name.as_str(),
                ),
                None => false,
            };
            if monitor.enlarged || !same_name {
                return (
                    stretch(monitor.x11_x, x - monitor.x, monitor.scale),
                    stretch(monitor.x11_y, y - monitor.y, monitor.scale),
                );
            }
        }
        if self.hypr_monitors.len() > 0 {
            return (x, y);
        }
        if self.env_enlarges {
            if let Some(i) = self.find_wide_monitor(x, y) {
                let monitor = &self.x11_monitors[i];
                return (
                    stretch(monitor.x, x - monitor.x, self.env_scale),
                    stretch(monitor.y, y - monitor.y, self.env_scale),
                );
            }
        }
        (x, y)
    }

    /// Map an X11 pixel to logical points, where a monitor holds it. `shrink` gives a
    /// base plus a distance that is divided by a scale.
    #[must_use]
    pub fn map_x11_to_logical<S: Fn(i32, i32, F) -> i32>(&self, x: i32, y: i32, shrink: &S) -> (
    point: Option<(i32, i32)>)
        requires
            scales(*shrink),
        ensures
            match self.logical_mapping(x, y) {
                Some(mapping) => point matches Some(found) && maps_to(
                    mapping,
                    *shrink,
                    x,
                    y,
                    found,
                ) && found == mapped_point(mapping, *shrink, x, y),
                None => point is None,
            },
    {
        match self.find_x11(x, y) {
            Some(i) => {
                let monitor = &self.hypr_monitors[i];
                Some(
                    (
                        shrink(monitor.x, x - monitor.x11_x, monitor.scale),
                        shrink(monitor.y, y - monitor.x11_y, monitor.scale),
                    ),
                )
            },
            None => None,
        }
    }
}

/// On a desktop without scaled monitors points stay where they are, unless the
/// environment says otherwise.
pub proof fn unscaled_desktops_map_nothing<F>(
    mapper: DragCoordinateMapper<F>,
    x: i32,
    y: i32,
)
    requires
        mapper.hypr_monitors@.len() == 0,
    ensures
        mapper.mapping(None, x, y) is Identity,
{
}

/// A point that is on a monitor of scale 1 in both spaces stays where it is.
pub proof fn unscaled_monitors_map_nothing<F>(
    mapper: DragCoordinateMapper<F>,
    forced: Option<bool>,
    x: i32,
    y: i32,
    i: int,
    k: int,
)
    requires
        first_logical(mapper.hypr_monitors@, x as int, y as int, 0) == Some(i),
        first_monitor(mapper.x11_monitors@, x as int, y as int, 0) == Some(k),
        0 <= i < mapper.hypr_monitors@.len(),
        !mapper.hypr_monitors@[i].enlarged,
        mapper.x11_monitors@[k].name@ == mapper.hypr_monitors@[i].name@,
    ensures
        mapper.mapping(forced, x, y) is Identity,
{
}

// ---------------------------------------------------------------------------
// Pointer samples
// ---------------------------------------------------------------------------

/// A number within 16 bits: the nearest one there is.
pub open spec fn nearest_i16(value: i32) -> int {
    if value < i16::MIN {
        i16::MIN as int
    } else if value > i16::MAX {
        i16::MAX as int
    } else {
        value as int
    }
}

/// A number within 16 bits: the nearest one there is.
#[must_use]
pub fn clamp_i32_to_i16(value: i32) -> (clamped: i16)
    ensures
        clamped as int == nearest_i16(value),
{
    if value < i16::MIN as i32 {
        i16::MIN
    } else if value > i16::MAX as i32 {
        i16::MAX
    } else {
        value as i16
    }
}

impl<F> DragCoordinateMapper<F> {
    /// The position that targets are looked up at.
    #[must_use]
    pub fn lookup_position(&self, root_x: i16, root_y: i16) -> (position: (i16, i16))
        ensures
            position == (root_x, root_y),
    {
        let (x, y): (i32, i32) = self.target_point(root_x as i32, root_y as i32);
        (clamp_i32_to_i16(x), clamp_i32_to_i16(y))
    }

    /// A sample of the pointer, from its position and button mask.
    #[must_use]
    pub fn sample(&self, root_x: i16, root_y: i16, mask: u16, route_enabled: bool) -> (sample:
        PointerSample)
        ensures
            sample == (PointerSample {
                raw_x: root_x,
                raw_y: root_y,
                x: root_x,
                y: root_y,
                button1_held: primary_held(mask),
                route_enabled,
            }),
    {
        let (x, y): (i16, i16) = self.lookup_position(root_x, root_y);
        PointerSample {
            raw_x: root_x,
            raw_y: root_y,
            x,
            y,
            button1_held: primary_down(mask),
            route_enabled,
        }
    }

    /// A release of the primary button at a position.
    #[must_use]
    pub fn release(&self, root_x: i16, root_y: i16, time: u32) -> (event: ButtonRelease)
        ensures
            event == (ButtonRelease {
                time,
                raw_x: root_x,
                raw_y: root_y,
                x: root_x,
                y: root_y,
            }),
    {
        let (x, y): (i16, i16) = self.lookup_position(root_x, root_y);
        ButtonRelease { time, raw_x: root_x, raw_y: root_y, x, y }
    }
}

/// Whether a point lies in a window.
#[must_use]
pub fn contains_point(x: i16, y: i16, width: u16, height: u16, point_x: i16, point_y: i16) -> (
inside: bool)
    ensures
        inside == in_rect(
            x as int,
            y as int,
            width as int,
            height as int,
            point_x as int,
            point_y as int,
        ),
{
    rect_contains(
        x as i32,
        y as i32,
        width as i32,
        height as i32,
        point_x as i32,
        point_y as i32,
    )
}

/// The largest coordinate at which the preview fits.
pub open spec fn preview_limit(screen: int, size: int) -> int {
    screen - size - PREVIEW_MARGIN
}

/// A coordinate, moved so that it lies between 0 and a limit.
pub open spec fn between_zero_and(limit: int, value: int) -> int {
    if value < 0 {
        0
    } else if value > limit {
        limit
    } else {
        value
    }
}

fn clamp_coordinate(screen: u16, size: u16, value: i32) -> (clamped: i32)
    requires
        preview_limit(screen as int, size as int) >= 0,
    ensures
        clamped == between_zero_and(preview_limit(screen as int, size as int), value as int),
{
    let limit: i32 = screen as i32 - size as i32 - PREVIEW_MARGIN;
    if value < 0 {
        0
    } else if value > limit {
        limit
    } else {
        value
    }
}

/// Place the preview near a pointer position, within the screen.
#[must_use]
pub fn preview_position(
    screen_width: u16,
    screen_height: u16,
    width: u16,
    height: u16,
    root_x: i16,
    root_y: i16,
) -> (position: (i32, i32))
    requires
        preview_limit(screen_width as int, width as int) >= 0,
        preview_limit(screen_height as int, height as int) >= 0,
    ensures
        position.0 == between_zero_and(
            preview_limit(screen_width as int, width as int),
            root_x + PREVIEW_OFFSET_X,
        ),
        position.1 == between_zero_and(
            preview_limit(screen_height as int, height as int),
            root_y + PREVIEW_OFFSET_Y,
        ),
{
    (
        clamp_coordinate(screen_width, width, root_x as i32 + PREVIEW_OFFSET_X),
        clamp_coordinate(screen_height, height, root_y as i32 + PREVIEW_OFFSET_Y),
    )
}

// ---------------------------------------------------------------------------
// Detection
// ---------------------------------------------------------------------------

/// What `AUDIO_PLUGIN_DND_PREVIEW_REMAP` says about mapping, where it is set.
#[must_use]
pub fn preview_coordinate_remap_enabled(value: Option<&str>) -> (forced: Option<bool>)
    ensures
        forced == (match value {
            Some(text) => Some(switches_on(text@)),
            None => None,
        }),
{
    match value {
        Some(text) => Some(is_switched_on(text)),
        None => None,
    }
}

/// The name of a monitor whose name is shown as `name`.
pub fn name_or_default(name: Option<String>) -> (shown: String)
    ensures
        shown@ == (match name {
            Some(text) => if text@.len() > 0 {
                text@
            } else {
                "monitor"@
            },
            None => "monitor"@,
        }),
{
    match name {
        Some(text) => {
            if text.as_str().is_empty() {
                "monitor".to_owned()
            } else {
                text
            }
        },
        None => "monitor".to_owned(),
    }
}

/// The name of a monitor, from the name of its atom, where the server gave one.
pub fn randr_monitor_name(name: Option<Vec<u8>>) -> (shown: String)
    ensures
        shown@ == (match name {
            Some(bytes) => if lossy_text(bytes@).len() > 0 {
                lossy_text(bytes@)
            } else {
                "monitor"@
            },
            None => "monitor"@,
        }),
{
    match name {
        Some(bytes) => name_or_default(Some(read_lossy(&bytes))),
        None => name_or_default(None),
    }
}

/// The monitors of a screen: those that the server names, or the screen itself.
pub fn preview_monitors(
    reported: Option<Vec<PreviewMonitor>>,
    screen_width: u16,
    screen_height: u16,
) -> (monitors: Vec<PreviewMonitor>)
    ensures
        match reported {
            Some(list) if list@.len() > 0 => monitors@ == list@,
            _ => monitors@.len() == 1 && monitors@[0].name@ == "screen"@ && monitors@[0].x == 0
                && monitors@[0].y == 0 && monitors@[0].width == screen_width
                && monitors@[0].height == screen_height,
        },
{
    match reported {
        Some(list) if list.len() > 0 => list,
        _ => {
            let screen = PreviewMonitor {
                name: "screen".to_owned(),
                x: 0,
                y: 0,
                width: screen_width as i32,
                height: screen_height as i32,
            };
            vec![screen]
        },
    }
}

// ---------------------------------------------------------------------------
// Diagnostics
// ---------------------------------------------------------------------------

/// The entry of an X11 monitor in a diagnostic.
pub open spec fn x11_entry(monitor: PreviewMonitor) -> Seq<char> {
    monitor.name@ + "="@ + signed_decimal(monitor.width as int) + "x"@ + signed_decimal(
        monitor.height as int,
    ) + "+"@ + signed_decimal(monitor.x as int) + "+"@ + signed_decimal(monitor.y as int)
}

/// The entry of a scaled monitor in a diagnostic.
pub open spec fn hypr_entry<F>(monitor: HyprMonitor<F>, scale: Seq<char>) -> Seq<char> {
    monitor.name@ + "=logical "@ + signed_decimal(monitor.logical_width as int) + "x"@
        + signed_decimal(monitor.logical_height as int) + "+"@ + signed_decimal(monitor.x as int)
        + "+"@ + signed_decimal(monitor.y as int) + " scale "@ + scale + " -> x11 +"@
        + signed_decimal(monitor.x11_x as int) + "+"@ + signed_decimal(monitor.x11_y as int)
}

fn x11_entry_text(monitor: &PreviewMonitor) -> (text: String)
    ensures
        text@ == x11_entry(*monitor),
{
    let width = signed_decimal_text(monitor.width);
    let height = signed_decimal_text(monitor.height);
    let x = signed_decimal_text(monitor.x);
    let y = signed_decimal_text(monitor.y);
    monitor.name.clone().concat("=").concat(width.as_str()).concat("x").concat(
        height.as_str(),
    ).concat("+").concat(x.as_str()).concat("+").concat(y.as_str())
}

fn hypr_entry_text<F>(monitor: &HyprMonitor<F>, scale: &str) -> (text: String)
    ensures
        text@ == hypr_entry(*monitor, scale@),
{
    let width = signed_decimal_text(monitor.logical_width);
    let height = signed_decimal_text(monitor.logical_height);
    let x = signed_decimal_text(monitor.x);
    let y = signed_decimal_text(monitor.y);
    let x11_x = signed_decimal_text(monitor.x11_x);
    let x11_y = signed_decimal_text(monitor.x11_y);
    monitor.name.clone().concat("=logical ").concat(width.as_str()).concat("x").concat(
        height.as_str(),
    ).concat("+").concat(x.as_str()).concat("+").concat(y.as_str()).concat(" scale ").concat(
        scale,
    ).concat(" -> x11 +").concat(x11_x.as_str()).concat("+").concat(x11_y.as_str())
}

impl<F> DragCoordinateMapper<F> {
    /// The diagnostic of the mapper, with scales as shown.
    pub open spec fn line(self, scales: Seq<Seq<char>>, env_scale: Seq<char>) -> Seq<char> {
        let x11 = joined(
            Seq::new(self.x11_monitors@.len(), |i: int| x11_entry(self.x11_monitors@[i])),
            ","@,
        );
        let hypr = joined(
            Seq::new(
                self.hypr_monitors@.len(),
                |i: int| hypr_entry(self.hypr_monitors@[i], scales[i]),
            ),
            ","@,
        );
        if hypr.len() == 0 {
            "x11=["@ + x11 + "] hypr=unavailable env_scale="@ + env_scale
        } else {
            "x11=["@ + x11 + "] hypr=["@ + hypr + "] env_scale="@ + env_scale
        }
    }

    /// The diagnostic of the mapper. `scale_texts` are the scales of the scaled
    /// monitors as shown, `env_scale_text` is that of the environment.
    #[must_use]
    pub fn summary(&self, scale_texts: &Vec<String>, env_scale_text: &str) -> (text: String)
        requires
            scale_texts@.len() == self.hypr_monitors@.len(),
        ensures
            text@ == self.line(texts(scale_texts@), env_scale_text@),
    {
        let mut x11_entries: Vec<String> = Vec::new();
        for i in 0..self.x11_monitors.len()
            invariant
                x11_entries@.len() == i,
                forall|k: int| 0 <= k < i ==> (#[trigger] x11_entries@[k])@ == x11_entry(
                    self.x11_monitors@[k],
                ),
        {
            x11_entries.push(x11_entry_text(&self.x11_monitors[i]));
        }
        let mut hypr_entries: Vec<String> = Vec::new();
        for i in 0..self.hypr_monitors.len()
            invariant
                scale_texts@.len() == self.hypr_monitors@.len(),
                hypr_entries@.len() == i,
                forall|k: int| 0 <= k < i ==> (#[trigger] hypr_entries@[k])@ == hypr_entry(
                    self.hypr_monitors@[k],
                    texts(scale_texts@)[k],
                ),
        {
            hypr_entries.push(
                hypr_entry_text(&self.hypr_monitors[i], scale_texts[i].as_str()),
            );
        }
        assert(texts(x11_entries@) =~= Seq::new(
            self.x11_monitors@.len(),
            |i: int| x11_entry(self.x11_monitors@[i]),
        ));
        assert(texts(hypr_entries@) =~= Seq::new(
            self.hypr_monitors@.len(),
            |i: int| hypr_entry(self.hypr_monitors@[i], texts(scale_texts@)[i]),
        ));
        let x11 = join_texts(&x11_entries, ",");
        let hypr = join_texts(&hypr_entries, ",");
        if hypr.as_str().is_empty() {
            "x11=[".to_owned().concat(x11.as_str()).concat("] hypr=unavailable env_scale=").concat(
                env_scale_text,
            )
        } else {
            "x11=[".to_owned().concat(x11.as_str()).concat("] hypr=[").concat(
                hypr.as_str(),
            ).concat("] env_scale=").concat(env_scale_text)
        }
    }
}

/// Whether a pixel lies on an X11 monitor: the left and upper edges belong to it, the
/// right and lower ones do not.
pub open spec fn on_monitor(monitor: PreviewMonitor, x: int, y: int) -> bool {
    0 <= x - monitor.x < monitor.width && 0 <= y - monitor.y < monitor.height
}

/// Whether a logical point lies on a scaled monitor.
pub open spec fn on_scaled_monitor<F>(monitor: HyprMonitor<F>, x: int, y: int) -> bool {
    0 <= x - monitor.x < monitor.logical_width && 0 <= y - monitor.y < monitor.logical_height
}

/// Whether an X11 pixel lies on a scaled monitor.
pub open spec fn on_scaled_pixels<F>(monitor: HyprMonitor<F>, x: int, y: int) -> bool {
    0 <= x - monitor.x11_x < monitor.width && 0 <= y - monitor.x11_y < monitor.height
}

/// The monitor of a pixel is the first of the list that the pixel lies on; there is
/// none only where it lies on none.
pub proof fn pixel_is_on_its_first_monitor(
    monitors: Seq<PreviewMonitor>,
    x: int,
    y: int,
    from: int,
)
    requires
        0 <= from <= monitors.len(),
    ensures
        match first_monitor(monitors, x, y, from) {
            Some(i) => from <= i < monitors.len() && on_monitor(monitors[i], x, y) && forall|k: int|
                from <= k < i ==> !on_monitor(#[trigger] monitors[k], x, y),
            None => forall|k: int|
                from <= k < monitors.len() ==> !on_monitor(#[trigger] monitors[k], x, y),
        },
        match first_wide_monitor(monitors, x, y, from) {
            Some(i) => from <= i < monitors.len() && on_monitor(monitors[i], x, y)
                && monitors[i].width >= 3000 && forall|k: int|
                from <= k < i ==> !(on_monitor(#[trigger] monitors[k], x, y) && monitors[k].width
                    >= 3000),
            None => forall|k: int|
                from <= k < monitors.len() ==> !(on_monitor(#[trigger] monitors[k], x, y)
                    && monitors[k].width >= 3000),
        },
    decreases monitors.len() - from,
{
    if from < monitors.len() {
        pixel_is_on_its_first_monitor(monitors, x, y, from + 1);
    }
}

/// The scaled monitor of a point is the first of the list that the point lies on, in
/// logical points and in X11 pixels alike.
pub proof fn point_is_on_its_first_scaled_monitor<F>(
    monitors: Seq<HyprMonitor<F>>,
    x: int,
    y: int,
    from: int,
)
    requires
        0 <= from <= monitors.len(),
    ensures
        match first_logical(monitors, x, y, from) {
            Some(i) => from <= i < monitors.len() && on_scaled_monitor(monitors[i], x, y)
                && forall|k: int|
                from <= k < i ==> !on_scaled_monitor(#[trigger] monitors[k], x, y),
            None => forall|k: int|
                from <= k < monitors.len() ==> !on_scaled_monitor(#[trigger] monitors[k], x, y),
        },
        match first_x11(monitors, x, y, from) {
            Some(i) => from <= i < monitors.len() && on_scaled_pixels(monitors[i], x, y)
                && forall|k: int|
                from <= k < i ==> !on_scaled_pixels(#[trigger] monitors[k], x, y),
            None => forall|k: int|
                from <= k < monitors.len() ==> !on_scaled_pixels(#[trigger] monitors[k], x, y),
        },
    decreases monitors.len() - from,
{
    if from < monitors.len() {
        point_is_on_its_first_scaled_monitor(monitors, x, y, from + 1);
    }
}

/// A logical point on an enlarged monitor, or on one that X11 shows elsewhere, is
/// mapped to the X11 pixels of that monitor: its distance from the monitor's corner is
/// scaled by the monitor's scale and counted from the corner in X11 pixels.
pub proof fn points_move_with_their_monitor<F>(
    mapper: DragCoordinateMapper<F>,
    forced: Option<bool>,
    x: i32,
    y: i32,
    i: int,
)
    requires
        forced != Some(false),
        0 <= i < mapper.hypr_monitors@.len(),
        on_scaled_monitor(mapper.hypr_monitors@[i], x as int, y as int),
        forall|k: int|
            0 <= k < i ==> !on_scaled_monitor(
                #[trigger] mapper.hypr_monitors@[k],
                x as int,
                y as int,
            ),
        mapper.hypr_monitors@[i].enlarged || forall|k: int|
            0 <= k < mapper.x11_monitors@.len() ==> !(on_monitor(
                #[trigger] mapper.x11_monitors@[k],
                x as int,
                y as int,
            ) && mapper.x11_monitors@[k].name@ == mapper.hypr_monitors@[i].name@),
    ensures
        match mapper.mapping(forced, x, y) {
            PointMapping::Scaled { base_x, base_y, dx, dy, scale } => {
                &&& base_x == mapper.hypr_monitors@[i].x11_x
                &&& base_y == mapper.hypr_monitors@[i].x11_y
                &&& dx == x - mapper.hypr_monitors@[i].x
                &&& dy == y - mapper.hypr_monitors@[i].y
                &&& scale == mapper.hypr_monitors@[i].scale
            },
            PointMapping::Identity => false,
        },
{
    point_is_on_its_first_scaled_monitor(mapper.hypr_monitors@, x as int, y as int, 0);
    pixel_is_on_its_first_monitor(mapper.x11_monitors@, x as int, y as int, 0);
}

/// Points stay where they are where mapping is switched off, and on a scaled desktop
/// where they lie on no monitor.
pub proof fn other_points_stay<F>(
    mapper: DragCoordinateMapper<F>,
    forced: Option<bool>,
    x: i32,
    y: i32,
)
    requires
        forced == Some(false) || (mapper.hypr_monitors@.len() > 0 && forall|k: int|
            0 <= k < mapper.hypr_monitors@.len() ==> !on_scaled_monitor(
                #[trigger] mapper.hypr_monitors@[k],
                x as int,
                y as int,
            )),
    ensures
        mapper.mapping(forced, x, y) is Identity,
{
    point_is_on_its_first_scaled_monitor(mapper.hypr_monitors@, x as int, y as int, 0);
}

/// Where no scaled monitor is known, a mapping that is asked for uses the scale of the
/// environment, where it enlarges, on the first wide monitor of a point, and no other.
pub proof fn environment_scales_wide_monitors<F>(
    mapper: DragCoordinateMapper<F>,
    x: i32,
    y: i32,
)
    requires
        mapper.hypr_monitors@.len() == 0,
    ensures
        match mapper.mapping(Some(true), x, y) {
            PointMapping::Scaled { base_x, base_y, dx, dy, scale } => mapper.env_enlarges && scale
                == mapper.env_scale && exists|i: int|
                {
                    &&& 0 <= i < mapper.x11_monitors@.len()
                    &&& on_monitor(#[trigger] mapper.x11_monitors@[i], x as int, y as int)
                    &&& mapper.x11_monitors@[i].width >= 3000
                    &&& base_x == mapper.x11_monitors@[i].x && dx == x - base_x
                    &&& base_y == mapper.x11_monitors@[i].y && dy == y - base_y
                    &&& forall|k: int|
                        0 <= k < i ==> !(on_monitor(
                            #[trigger] mapper.x11_monitors@[k],
                            x as int,
                            y as int,
                        ) && mapper.x11_monitors@[k].width >= 3000)
                },
            PointMapping::Identity => !mapper.env_enlarges || forall|k: int|
                0 <= k < mapper.x11_monitors@.len() ==> !(on_monitor(
                    #[trigger] mapper.x11_monitors@[k],
                    x as int,
                    y as int,
                ) && mapper.x11_monitors@[k].width >= 3000),
        },
{
    pixel_is_on_its_first_monitor(mapper.x11_monitors@, x as int, y as int, 0);
}

/// An X11 pixel is mapped to logical points by the first scaled monitor that shows it:
/// its distance from the monitor's corner in pixels is counted from the corner in
/// points. A pixel that no scaled monitor shows is not mapped.
pub proof fn pixels_are_read_on_the_monitor_that_shows_them<F>(
    mapper: DragCoordinateMapper<F>,
    x: i32,
    y: i32,
)
    ensures
        match mapper.logical_mapping(x, y) {
            Some(PointMapping::Scaled { base_x, base_y, dx, dy, scale }) => exists|i: int|
                {
                    &&& 0 <= i < mapper.hypr_monitors@.len()
                    &&& on_scaled_pixels(#[trigger] mapper.hypr_monitors@[i], x as int, y as int)
                    &&& base_x == mapper.hypr_monitors@[i].x
                    &&& base_y == mapper.hypr_monitors@[i].y
                    &&& dx == x - mapper.hypr_monitors@[i].x11_x
                    &&& dy == y - mapper.hypr_monitors@[i].x11_y
                    &&& scale == mapper.hypr_monitors@[i].scale
                    &&& forall|k: int|
                        0 <= k < i ==> !on_scaled_pixels(
                            #[trigger] mapper.hypr_monitors@[k],
                            x as int,
                            y as int,
                        )
                },
            Some(PointMapping::Identity) => false,
            None => forall|k: int|
                0 <= k < mapper.hypr_monitors@.len() ==> !on_scaled_pixels(
                    #[trigger] mapper.hypr_monitors@[k],
                    x as int,
                    y as int,
                ),
        },
{
    point_is_on_its_first_scaled_monitor(mapper.hypr_monitors@, x as int, y as int, 0);
}

/// A coordinate becomes the nearest one of 16 bits: it stays where it fits, and no
/// other of 16 bits is closer.
pub proof fn coordinates_become_the_nearest(value: i32, other: i16)
    ensures
        -32768 <= nearest_i16(value) <= 32767,
        -32768 <= value <= 32767 ==> nearest_i16(value) == value,
        value >= nearest_i16(value) ==> value - nearest_i16(value) <= value - other || other > value,
        value <= nearest_i16(value) ==> nearest_i16(value) - value <= other - value || other < value,
        value < other ==> nearest_i16(value) <= other,
        value > other ==> nearest_i16(value) >= other,
{
}

/// The preview stands 20 pixels right of the pointer and 22 below it, where that is on
/// the screen; it always lies on the screen, 8 pixels or more from the far edges, and
/// moves no further than it has to.
pub proof fn preview_stays_on_the_screen(screen: u16, size: u16, pointer: i16)
    requires
        size + 8 <= screen,
    ensures
        PREVIEW_OFFSET_X == 20,
        PREVIEW_OFFSET_Y == 22,
        ({
            let x = between_zero_and(
                preview_limit(screen as int, size as int),
                pointer + PREVIEW_OFFSET_X,
            );
            let y = between_zero_and(
                preview_limit(screen as int, size as int),
                pointer + PREVIEW_OFFSET_Y,
            );
            &&& 0 <= x && x + size + 8 <= screen
            &&& 0 <= y && y + size + 8 <= screen
            &&& pointer + 20 >= 0 && pointer + 20 + size + 8 <= screen ==> x == pointer + 20
            &&& pointer + 22 >= 0 && pointer + 22 + size + 8 <= screen ==> y == pointer + 22
            &&& pointer + 20 < 0 ==> x == 0
            &&& pointer + 22 < 0 ==> y == 0
            &&& pointer + 20 + size + 8 > screen ==> x + size + 8 == screen
            &&& pointer + 22 + size + 8 > screen ==> y + size + 8 == screen
        }),
{
}

} // verus!
