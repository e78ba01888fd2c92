//! Shared high-fidelity drag-chip rasterizer used by every platform host.
//!
//! What depends on sample values (the rows of waveform bars, the colors of spectral
//! cells, the rectangles of notes) is given in pixels; see [`ChipContent`]. How a
//! color is laid over another one is given as a function on pixels.

use vstd::prelude::*;

verus! {

/// Logical chip size in pixels (matches the OS preview window).
pub const CHIP_WIDTH: usize = 224;

/// Logical chip size in pixels (matches the OS preview window).
pub const CHIP_HEIGHT: usize = 90;

/// Smallest chip size in pixels.
pub const MIN_CHIP_WIDTH: usize = 32;

/// Smallest chip size in pixels.
pub const MIN_CHIP_HEIGHT: usize = 24;

/// The space beside the bars of a waveform.
pub const CHIP_BAR_MARGIN: usize = 16;

/// The space around spectral cells.
pub const CHIP_CELL_MARGIN: usize = 14;

/// How many notes are drawn at most.
pub const MAX_DRAWN_NOTES: usize = 96;

/// An RGBA color.
#[derive(Clone, Copy, Debug, PartialEq, Eq, Structural)]
pub struct Pixel {
    pub r: u8,
    pub g: u8,
    pub b: u8,
    pub a: u8,
}

/// RGBA8 bitmap for a drag chip.
#[derive(Clone, Debug, PartialEq, Eq)]
pub struct DragChipImage {
    pub width: usize,
    pub height: usize,
    /// Premultiplied-friendly straight RGBA (A last).
    pub rgba: Vec<u8>,
}

impl DragChipImage {
    /// Number of pixels, or the largest number there is.
    #[must_use]
    pub fn pixel_count(&self) -> (count: usize)
        ensures
            count == (if self.width * self.height <= usize::MAX {
                self.width * self.height
            } else {
                usize::MAX as int
            }),
    {
        match self.width.checked_mul(self.height) {
            Some(count) => count,
            None => usize::MAX,
        }
    }
}

// ---------------------------------------------------------------------------
// Pixels
// ---------------------------------------------------------------------------

/// The pixel at a byte position.
pub open spec fn pixel_at(image: Seq<u8>, i: int) -> Pixel {
    Pixel { r: image[i], g: image[i + 1], b: image[i + 2], a: image[i + 3] }
}

/// An image with another pixel at a byte position.
pub open spec fn with_pixel(image: Seq<u8>, i: int, pixel: Pixel) -> Seq<u8> {
    image.update(i, pixel.r).update(i + 1, pixel.g).update(i + 2, pixel.b).update(i + 3, pixel.a)
}

/// Whether a function lays any color over any other one.
pub open spec fn lays_any<B: Fn(Pixel, Pixel) -> Pixel>(blend: B) -> bool {
    forall|below: Pixel, color: Pixel| #[trigger] call_requires(blend, (below, color))
}

/// Whether a function lays any color over any other one, and always in the same way.
pub open spec fn mixes<B: Fn(Pixel, Pixel) -> Pixel>(blend: B) -> bool {
    &&& lays_any(blend)
    &&& forall|below: Pixel, color: Pixel, one: Pixel, other: Pixel|
        #[trigger] call_ensures(blend, (below, color), one) && #[trigger] call_ensures(
            blend,
            (below, color),
            other,
        ) ==> one == other
}

/// The color that comes out when a function lays a color over another one.
pub open spec fn mix_of<B: Fn(Pixel, Pixel) -> Pixel>(blend: B) -> spec_fn(Pixel, Pixel) -> Pixel {
    |below: Pixel, color: Pixel|
        choose|pixel: Pixel| call_ensures(blend, (below, color), pixel)
}

/// Whether a function lays colors over other ones only as `mix` says.
pub open spec fn follows<B: Fn(Pixel, Pixel) -> Pixel>(
    blend: B,
    mix: spec_fn(Pixel, Pixel) -> Pixel,
) -> bool {
    forall|below: Pixel, color: Pixel, pixel: Pixel| #[trigger]
        call_ensures(blend, (below, color), pixel) ==> pixel == mix(below, color)
}

/// A function that always lays colors in the same way follows what comes out of it.
pub proof fn mixing_follows_itself<B: Fn(Pixel, Pixel) -> Pixel>(blend: B)
    requires
        mixes(blend),
    ensures
        follows(blend, mix_of(blend)),
{
    assert forall|below: Pixel, color: Pixel, pixel: Pixel| #[trigger]
        call_ensures(blend, (below, color), pixel) implies pixel == mix_of(blend)(below, color) by {
        let chosen = choose|pixel: Pixel| call_ensures(blend, (below, color), pixel);
        assert(call_ensures(blend, (below, color), chosen));
    }
}

/// An image after a color was laid over one pixel. Pixels beyond the image do not
/// count.
pub open spec fn dabbed(
    image: Seq<u8>,
    blend: spec_fn(Pixel, Pixel) -> Pixel,
    width: int,
    x: int,
    y: int,
    color: Pixel,
) -> Seq<u8> {
    let i = (y * width + x) * 4;
    if x >= width || i + 3 >= image.len() {
        image
    } else {
        with_pixel(image, i, blend(pixel_at(image, i), color))
    }
}

/// Lay a color over one pixel.
fn set_pixel<B: Fn(Pixel, Pixel) -> Pixel>(
    image: &mut Vec<u8>,
    width: usize,
    x: usize,
    y: usize,
    color: Pixel,
    blend: &B,
)
    requires
        lays_any(*blend),
        (y * width + width) * 4 <= usize::MAX,
    ensures
        forall|mix: spec_fn(Pixel, Pixel) -> Pixel| #[trigger]
            follows(*blend, mix) ==> final(image)@ == dabbed(
                old(image)@,
                mix,
                width as int,
                x as int,
                y as int,
                color,
            ),
        final(image)@.len() == old(image)@.len(),
{
    if x >= width {
        return;
    }
    let index: usize = (y * width + x) * 4;
    if index >= image.len() || image.len() - index <= 3 {
        return;
    }
    let below = Pixel {
        r: image[index],
        g: image[index + 1],
        b: image[index + 2],
        a: image[index + 3],
    };
    let pixel = blend(below, color);
    image.set(index, pixel.r);
    image.set(index + 1, pixel.g);
    image.set(index + 2, pixel.b);
    image.set(index + 3, pixel.a);
}

// ---------------------------------------------------------------------------
// Shapes
// ---------------------------------------------------------------------------

/// A rectangle with round corners.
#[derive(Clone, Copy, Debug, PartialEq, Eq, Structural)]
pub struct RoundedRect {
    pub x: usize,
    pub y: usize,
    pub w: usize,
    pub h: usize,
    pub r: usize,
}

/// What is filled within a range of rows and columns.
#[derive(Clone, Copy, Debug, PartialEq, Eq, Structural)]
pub enum Shape {
    /// Everything.
    Full,
    /// A rectangle with round corners.
    Rounded(RoundedRect),
    /// The edge of a rectangle with round corners, one pixel wide.
    Edge(RoundedRect),
}

/// The distance of a pixel from the inner end of a corner with radius `r`, along one
/// axis; `None` off the corner.
pub open spec fn corner_depth(from_start: int, from_end: int, r: int) -> Option<int> {
    if from_start < r {
        Some(r - from_start)
    } else if from_end < r {
        Some(r - from_end)
    } else {
        None
    }
}

impl RoundedRect {
    /// Whether a pixel lies in the rectangle: within its sides, and within the circle
    /// of a corner where it is at one.
    pub open spec fn covers(self, px: int, py: int) -> bool {
        &&& self.x <= px < self.x + self.w
        &&& self.y <= py < self.y + self.h
        &&& match (
            corner_depth(px - self.x, self.x + self.w - 1 - px, self.r as int),
            corner_depth(py - self.y, self.y + self.h - 1 - py, self.r as int),
        ) {
            (Some(dx), Some(dy)) => dx * dx + dy * dy <= self.r * self.r,
            _ => true,
        }
    }

    /// The rectangle one pixel further in.
    pub open spec fn inset(self) -> RoundedRect {
        RoundedRect {
            x: (self.x + 1) as usize,
            y: (self.y + 1) as usize,
            w: if self.w >= 2 {
                (self.w - 2) as usize
            } else {
                0
            },
            h: if self.h >= 2 {
                (self.h - 2) as usize
            } else {
                0
            },
            r: if self.r >= 1 {
                (self.r - 1) as usize
            } else {
                0
            },
        }
    }
}

/// The rectangle that is filled: the corners are no larger than the sides allow.
pub open spec fn rounded(x: usize, y: usize, w: usize, h: usize, radius: usize) -> RoundedRect {
    let half_w = (w / 2) as usize;
    let half_h = (h / 2) as usize;
    let by_width = if radius < half_w {
        radius
    } else {
        half_w
    };
    RoundedRect {
        x,
        y,
        w,
        h,
        r: if by_width < half_h {
            by_width
        } else {
            half_h
        },
    }
}

fn rounded_rect(x: usize, y: usize, w: usize, h: usize, radius: usize) -> (rect: RoundedRect)
    ensures
        rect == rounded(x, y, w, h, radius),
{
    let half_w: usize = w / 2;
    let half_h: usize = h / 2;
    let by_width: usize = if radius < half_w {
        radius
    } else {
        half_w
    };
    let r: usize = if by_width < half_h {
        by_width
    } else {
        half_h
    };
    RoundedRect { x, y, w, h, r }
}

fn depth_at_corner(from_start: usize, from_end: usize, r: usize) -> (depth: Option<usize>)
    ensures
        depth is Some == corner_depth(from_start as int, from_end as int, r as int) is Some,
        depth matches Some(d) ==> Some(d as int) == corner_depth(
            from_start as int,
            from_end as int,
            r as int,
        ) && d <= r,
{
    if from_start < r {
        Some(r - from_start)
    } else if from_end < r {
        Some(r - from_end)
    } else {
        None
    }
}

/// Whether a pixel lies in a rectangle with round corners.
fn inside_rounded(px: usize, py: usize, rect: &RoundedRect) -> (inside: bool)
    requires
        2 * rect.r * rect.r <= usize::MAX,
    ensures
        inside == rect.covers(px as int, py as int),
{
    if px < rect.x || py < rect.y || px - rect.x >= rect.w || py - rect.y >= rect.h {
        return false;
    }
    let lx: usize = px - rect.x;
    let ly: usize = py - rect.y;
    let rx: usize = rect.w - 1 - lx;
    let ry: usize = rect.h - 1 - ly;
    match (depth_at_corner(lx, rx, rect.r), depth_at_corner(ly, ry, rect.r)) {
        (Some(dx), Some(dy)) => {
            let r: usize = rect.r;
            assert(dx * dx <= r * r) by (nonlinear_arith)
                requires
                    0 <= dx <= r,
            ;
            assert(dy * dy <= r * r) by (nonlinear_arith)
                requires
                    0 <= dy <= r,
            ;
            assert(2 * r * r == r * r + r * r) by (nonlinear_arith);
            assert(r * r >= 0) by (nonlinear_arith);
            dx * dx + dy * dy <= r * r
        },
        _ => true,
    }
}

impl Shape {
    /// Whether a pixel is filled.
    pub open spec fn fills(self, px: int, py: int) -> bool {
        match self {
            Shape::Full => true,
            Shape::Rounded(rect) => rect.covers(px, py),
            Shape::Edge(rect) => rect.covers(px, py) && !rect.inset().covers(px, py),
        }
    }

    /// Whether the shape can be drawn.
    pub open spec fn drawable(self) -> bool {
        match self {
            Shape::Full => true,
            Shape::Rounded(rect) => 2 * rect.r * rect.r <= usize::MAX,
            Shape::Edge(rect) => 2 * rect.r * rect.r <= usize::MAX && rect.x < usize::MAX && rect.y
                < usize::MAX,
        }
    }

    fn fills_pixel(&self, px: usize, py: usize) -> (filled: bool)
        requires
            self.drawable(),
        ensures
            filled == self.fills(px as int, py as int),
    {
        match self {
            Shape::Full => true,
            Shape::Rounded(rect) => inside_rounded(px, py, rect),
            Shape::Edge(rect) => {
                let inset = RoundedRect {
                    x: rect.x + 1,
                    y: rect.y + 1,
                    w: if rect.w >= 2 {
                        rect.w - 2
                    } else {
                        0
                    },
                    h: if rect.h >= 2 {
                        rect.h - 2
                    } else {
                        0
                    },
                    r: if rect.r >= 1 {
                        rect.r - 1
                    } else {
                        0
                    },
                };
                proof {
                    let r = rect.r as int;
                    let s = inset.r as int;
                    assert(2 * s * s <= 2 * r * r) by (nonlinear_arith)
                        requires
                            0 <= s <= r,
                    ;
                }
                inside_rounded(px, py, rect) && !inside_rounded(px, py, &inset)
            },
        }
    }
}

// ---------------------------------------------------------------------------
// Areas
// ---------------------------------------------------------------------------

/// An image after a shape was filled in one row, from column `x0` to before `x1`.
pub open spec fn row_painted(
    image: Seq<u8>,
    blend: spec_fn(Pixel, Pixel) -> Pixel,
    width: int,
    shape: Shape,
    x0: int,
    x1: int,
    y: int,
    color: Pixel,
) -> Seq<u8>
    decreases x1 - x0,
{
    if x1 <= x0 {
        image
    } else {
        let before = row_painted(image, blend, width, shape, x0, x1 - 1, y, color);
        if shape.fills(x1 - 1, y) {
            dabbed(before, blend, width, x1 - 1, y, color)
        } else {
            before
        }
    }
}

/// An image after a shape was filled, from row `y0` to before `y1` and from column
/// `x0` to before `x1`.
pub open spec fn area_painted(
    image: Seq<u8>,
    blend: spec_fn(Pixel, Pixel) -> Pixel,
    width: int,
    shape: Shape,
    x0: int,
    x1: int,
    y0: int,
    y1: int,
    color: Pixel,
) -> Seq<u8>
    decreases y1 - y0,
{
    if y1 <= y0 {
        image
    } else {
        row_painted(
            area_painted(image, blend, width, shape, x0, x1, y0, y1 - 1, color),
            blend,
            width,
            shape,
            x0,
            x1,
            y1 - 1,
            color,
        )
    }
}

fn paint_row<B: Fn(Pixel, Pixel) -> Pixel>(
    image: &mut Vec<u8>,
    width: usize,
    shape: &Shape,
    x0: usize,
    x1: usize,
    y: usize,
    color: Pixel,
    blend: &B,
)
    requires
        lays_any(*blend),
        shape.drawable(),
        (y * width + width) * 4 <= usize::MAX,
    ensures
        forall|mix: spec_fn(Pixel, Pixel) -> Pixel| #[trigger]
            follows(*blend, mix) ==> final(image)@ == row_painted(
                old(image)@,
                mix,
                width as int,
                *shape,
                x0 as int,
                x1 as int,
                y as int,
                color,
            ),
        final(image)@.len() == old(image)@.len(),
{
    let mut x: usize = x0;
    while x < x1
        invariant
            x0 <= x,
            x <= x1 || x == x0,
            lays_any(*blend),
            shape.drawable(),
            (y * width + width) * 4 <= usize::MAX,
            image@.len() == old(image)@.len(),
            forall|mix: spec_fn(Pixel, Pixel) -> Pixel| #[trigger]
                follows(*blend, mix) ==> image@ == row_painted(
                    old(image)@,
                    mix,
                    width as int,
                    *shape,
                    x0 as int,
                    x as int,
                    y as int,
                    color,
                ),
        decreases x1 - x,
    {
        if shape.fills_pixel(x, y) {
            set_pixel(image, width, x, y, color, blend);
        }
        x = x + 1;
    }
}

/// Fill a shape, from row `y0` to before `y1` and from column `x0` to before `x1`.
fn paint_area<B: Fn(Pixel, Pixel) -> Pixel>(
    image: &mut Vec<u8>,
    width: usize,
    shape: &Shape,
    x0: usize,
    x1: usize,
    y0: usize,
    y1: usize,
    color: Pixel,
    blend: &B,
)
    requires
        lays_any(*blend),
        shape.drawable(),
        y1 * width * 4 <= usize::MAX,
    ensures
        forall|mix: spec_fn(Pixel, Pixel) -> Pixel| #[trigger]
            follows(*blend, mix) ==> final(image)@ == area_painted(
                old(image)@,
                mix,
                width as int,
                *shape,
                x0 as int,
                x1 as int,
                y0 as int,
                y1 as int,
                color,
            ),
        final(image)@.len() == old(image)@.len(),
{
    let mut y: usize = y0;
    while y < y1
        invariant
            y0 <= y,
            y <= y1 || y == y0,
            lays_any(*blend),
            shape.drawable(),
            y1 * width * 4 <= usize::MAX,
            image@.len() == old(image)@.len(),
            forall|mix: spec_fn(Pixel, Pixel) -> Pixel| #[trigger]
                follows(*blend, mix) ==> image@ == area_painted(
                    old(image)@,
                    mix,
                    width as int,
                    *shape,
                    x0 as int,
                    x1 as int,
                    y0 as int,
                    y as int,
                    color,
                ),
        decreases y1 - y,
    {
        assert((y * width + width) * 4 <= y1 * width * 4) by (nonlinear_arith)
            requires
                y < y1,
        ;
        paint_row(image, width, shape, x0, x1, y, color, blend);
        y = y + 1;
    }
}

// ---------------------------------------------------------------------------
// Figures
// ---------------------------------------------------------------------------

/// The smaller of two numbers.
pub open spec fn lesser(a: int, b: int) -> int {
    if a < b {
        a
    } else {
        b
    }
}

fn end_within(start: usize, size: usize, limit: usize) -> (end: usize)
    ensures
        end == lesser(start + size, limit as int),
{
    if start < limit && size < limit - start {
        start + size
    } else {
        limit
    }
}

/// An image after a rectangle with round corners was filled.
pub open spec fn rounded_filled(
    image: Seq<u8>,
    blend: spec_fn(Pixel, Pixel) -> Pixel,
    width: int,
    height: int,
    rect: RoundedRect,
    color: Pixel,
) -> Seq<u8> {
    area_painted(
        image,
        blend,
        width,
        Shape::Rounded(rect),
        rect.x as int,
        lesser(rect.x + rect.w, width),
        rect.y as int,
        lesser(rect.y + rect.h, height),
        color,
    )
}

/// An image after the edge of a rectangle with round corners was drawn.
pub open spec fn rounded_stroked(
    image: Seq<u8>,
    blend: spec_fn(Pixel, Pixel) -> Pixel,
    width: int,
    height: int,
    rect: RoundedRect,
    color: Pixel,
) -> Seq<u8> {
    area_painted(
        image,
        blend,
        width,
        Shape::Edge(rect),
        rect.x as int,
        lesser(rect.x + rect.w, width),
        rect.y as int,
        lesser(rect.y + rect.h, height),
        color,
    )
}

/// An image after a bar was filled.
pub open spec fn bar_filled(
    image: Seq<u8>,
    blend: spec_fn(Pixel, Pixel) -> Pixel,
    width: int,
    height: int,
    x: int,
    y: int,
    w: int,
    h: int,
    color: Pixel,
) -> Seq<u8> {
    area_painted(
        image,
        blend,
        width,
        Shape::Full,
        x,
        lesser(x + w, width),
        y,
        lesser(y + h, height),
        color,
    )
}

proof fn rows_within(height: int, width: int, y: int)
    requires
        0 <= y <= height,
        0 <= width,
        height * width * 4 <= usize::MAX,
    ensures
        y * width * 4 <= usize::MAX,
{
    assert(y * width * 4 <= height * width * 4) by (nonlinear_arith)
        requires
            0 <= y <= height,
            0 <= width,
    ;
}

fn fill_rounded<B: Fn(Pixel, Pixel) -> Pixel>(
    image: &mut Vec<u8>,
    width: usize,
    height: usize,
    rect: &RoundedRect,
    color: Pixel,
    blend: &B,
)
    requires
        lays_any(*blend),
        2 * rect.r * rect.r <= usize::MAX,
        height * width * 4 <= usize::MAX,
    ensures
        forall|mix: spec_fn(Pixel, Pixel) -> Pixel| #[trigger]
            follows(*blend, mix) ==> final(image)@ == rounded_filled(
                old(image)@,
                mix,
                width as int,
                height as int,
                *rect,
                color,
            ),
        final(image)@.len() == old(image)@.len(),
{
    let x1: usize = end_within(rect.x, rect.w, width);
    let y1: usize = end_within(rect.y, rect.h, height);
    proof {
        rows_within(height as int, width as int, y1 as int);
    }
    let shape = Shape::Rounded(*rect);
    paint_area(image, width, &shape, rect.x, x1, rect.y, y1, color, blend);
}

fn stroke_rounded<B: Fn(Pixel, Pixel) -> Pixel>(
    image: &mut Vec<u8>,
    width: usize,
    height: usize,
    rect: &RoundedRect,
    color: Pixel,
    blend: &B,
)
    requires
        lays_any(*blend),
        2 * rect.r * rect.r <= usize::MAX,
        rect.x < usize::MAX,
        rect.y < usize::MAX,
        height * width * 4 <= usize::MAX,
    ensures
        forall|mix: spec_fn(Pixel, Pixel) -> Pixel| #[trigger]
            follows(*blend, mix) ==> final(image)@ == rounded_stroked(
                old(image)@,
                mix,
                width as int,
                height as int,
                *rect,
                color,
            ),
        final(image)@.len() == old(image)@.len(),
{
    let x1: usize = end_within(rect.x, rect.w, width);
    let y1: usize = end_within(rect.y, rect.h, height);
    proof {
        rows_within(height as int, width as int, y1 as int);
    }
    paint_area(image, width, &Shape::Edge(*rect), rect.x, x1, rect.y, y1, color, blend);
}

/// Fill a bar, as far as it lies in the image.
pub(crate) fn vbar<B: Fn(Pixel, Pixel) -> Pixel>(
    image: &mut Vec<u8>,
    width: usize,
    height: usize,
    x: usize,
    y: usize,
    w: usize,
    h: usize,
    color: Pixel,
    blend: &B,
)
    requires
        lays_any(*blend),
        height * width * 4 <= usize::MAX,
    ensures
        forall|mix: spec_fn(Pixel, Pixel) -> Pixel| #[trigger]
            follows(*blend, mix) ==> final(image)@ == bar_filled(
                old(image)@,
                mix,
                width as int,
                height as int,
                x as int,
                y as int,
                w as int,
                h as int,
                color,
            ),
        final(image)@.len() == old(image)@.len(),
{
    let x1: usize = end_within(x, w, width);
    let y1: usize = end_within(y, h, height);
    proof {
        rows_within(height as int, width as int, y1 as int);
    }
    paint_area(image, width, &Shape::Full, x, x1, y, y1, color, blend);
}

// ---------------------------------------------------------------------------
// Contents
// ---------------------------------------------------------------------------

/// The bar of one waveform bucket: the rows of its two ends.
#[derive(Clone, Copy, Debug, PartialEq, Eq, Structural)]
pub struct BarRows {
    pub one: usize,
    pub other: usize,
}

/// The rectangle of one note.
#[derive(Clone, Copy, Debug, PartialEq, Eq, Structural)]
pub struct NoteRect {
    pub x: usize,
    pub y: usize,
    pub w: usize,
    pub h: usize,
}

/// What a chip shows, in pixels.
#[derive(Debug)]
pub enum ChipContent {
    /// One bar for each waveform bucket.
    Waveform { bars: Vec<BarRows> },
    /// One color for each spectral cell (column-major: `column * rows + row`); `blank`
    /// is the color of a cell that is missing.
    Spectral { columns: usize, rows: usize, colors: Vec<Pixel>, blank: Pixel },
    /// One rectangle for each note.
    Midi { notes: Vec<NoteRect> },
}

/// What a chip shows, as a mathematical value.
pub enum ContentView {
    Waveform { bars: Seq<BarRows> },
    Spectral { columns: usize, rows: usize, colors: Seq<Pixel>, blank: Pixel },
    Midi { notes: Seq<NoteRect> },
}

impl View for ChipContent {
    type V = ContentView;

    open spec fn view(&self) -> ContentView {
        match *self {
            ChipContent::Waveform { bars } => ContentView::Waveform { bars: bars@ },
            ChipContent::Spectral { columns, rows, colors, blank } => ContentView::Spectral {
                columns,
                rows,
                colors: colors@,
                blank,
            },
            ChipContent::Midi { notes } => ContentView::Midi { notes: notes@ },
        }
    }
}

impl ContentView {
    /// Whether the machine can scale the content to an image of this size. Bars and
    /// spectral cells keep a margin on each side.
    pub open spec fn scales_to(
        self,
        width: int,
        height: int,
        bar_margin: int,
        cell_margin: int,
    ) -> bool {
        match self {
            ContentView::Waveform { bars } => less(bars.len() as int, 1) * usable(width, bar_margin)
                <= usize::MAX,
            ContentView::Spectral { columns, rows, colors, blank } => cells_scale(
                columns as int,
                rows as int,
                colors.len(),
                usable(width, cell_margin),
                usable(height, cell_margin),
            ),
            ContentView::Midi { notes } => true,
        }
    }
}

/// The pixels between two margins, but at least one.
pub open spec fn usable(size: int, margin: int) -> int {
    one_or_more(less(size, 2 * margin))
}

/// Whether the machine can find the cell of each pixel of a panel. Where there is no cell,
/// nothing is drawn.
pub open spec fn cells_scale(
    columns: int,
    rows: int,
    cells: nat,
    usable_w: int,
    usable_h: int,
) -> bool {
    columns == 0 || rows == 0 || cells == 0 || ((usable_w - 1) * columns <= usize::MAX && (usable_h
        - 1) * rows <= usize::MAX)
}

impl ChipContent {
    /// Whether the machine can scale the content to an image of this size. Bars and
    /// spectral cells keep a margin on each side.
    #[must_use]
    pub fn can_scale_to(
        &self,
        width: usize,
        height: usize,
        bar_margin: usize,
        cell_margin: usize,
    ) -> (fits: bool)
        requires
            2 * bar_margin <= usize::MAX,
            2 * cell_margin <= usize::MAX,
        ensures
            fits == self@.scales_to(
                width as int,
                height as int,
                bar_margin as int,
                cell_margin as int,
            ),
    {
        match self {
            ChipContent::Waveform { bars } => minus(bars.len(), 1).checked_mul(
                at_least_one(minus(width, 2 * bar_margin)),
            ).is_some(),
            ChipContent::Spectral { columns, rows, colors, .. } => {
                let usable_w: usize = at_least_one(minus(width, 2 * cell_margin));
                let usable_h: usize = at_least_one(minus(height, 2 * cell_margin));
                *columns == 0 || *rows == 0 || colors.len() == 0 || ((usable_w - 1).checked_mul(
                    *columns,
                ).is_some() && (usable_h - 1).checked_mul(*rows).is_some())
            },
            ChipContent::Midi { .. } => true,
        }
    }
}

/// A number without a part of it, but not below 0.
pub open spec fn less(a: int, b: int) -> int {
    if a >= b {
        a - b
    } else {
        0
    }
}

pub(crate) fn minus(a: usize, b: usize) -> (rest: usize)
    ensures
        rest == less(a as int, b as int),
{
    if a >= b {
        a - b
    } else {
        0
    }
}

/// A number, but at least 1.
pub open spec fn one_or_more(a: int) -> int {
    if a < 1 {
        1
    } else {
        a
    }
}

pub(crate) fn at_least_one(a: usize) -> (n: usize)
    ensures
        n == one_or_more(a as int),
{
    if a < 1 {
        1
    } else {
        a
    }
}

/// A color.
pub open spec fn color(r: u8, g: u8, b: u8, a: u8) -> Pixel {
    Pixel { r, g, b, a }
}

/// The column of a bar: the bars are spread evenly over the panel.
pub open spec fn bar_column(left: int, usable: int, count: int, index: int) -> int {
    left + index * usable / one_or_more(less(count, 1))
}

/// The upper row of a bar.
pub open spec fn bar_top(bar: BarRows) -> int {
    lesser(bar.one as int, bar.other as int)
}

/// The height of a bar: at least one row.
pub open spec fn bar_height(bar: BarRows) -> int {
    one_or_more(
        if bar.one < bar.other {
            bar.other - bar.one
        } else {
            bar.one - bar.other
        },
    )
}

/// An image after the first `count` bars were drawn.
pub open spec fn bars_drawn(
    image: Seq<u8>,
    blend: spec_fn(Pixel, Pixel) -> Pixel,
    width: int,
    height: int,
    bars: Seq<BarRows>,
    count: int,
) -> Seq<u8>
    decreases count,
{
    if count <= 0 {
        image
    } else {
        let before = bars_drawn(image, blend, width, height, bars, count - 1);
        let bar = bars[count - 1];
        let x = bar_column(
            CHIP_BAR_MARGIN as int,
            usable(width, CHIP_BAR_MARGIN as int),
            bars.len() as int,
            count - 1,
        );
        let glow = bar_filled(
            before,
            blend,
            width,
            height,
            x,
            bar_top(bar),
            3,
            bar_height(bar),
            color(168, 107, 234, 70),
        );
        bar_filled(
            glow,
            blend,
            width,
            height,
            x,
            bar_top(bar),
            2,
            bar_height(bar),
            color(169, 222, 255, 235),
        )
    }
}

/// An image after a waveform was drawn: a line across the middle, then the bars.
pub open spec fn waveform_drawn(
    image: Seq<u8>,
    blend: spec_fn(Pixel, Pixel) -> Pixel,
    width: int,
    height: int,
    bars: Seq<BarRows>,
) -> Seq<u8> {
    let line = line_drawn(
        image,
        blend,
        width,
        height,
        16,
        less(width, 16),
        (16 + less(height, 18)) / 2,
        color(75, 98, 124, 160),
    );
    bars_drawn(line, blend, width, height, bars, bars.len() as int)
}

/// An image after a horizontal line was drawn between two columns, both included.
pub open spec fn line_drawn(
    image: Seq<u8>,
    blend: spec_fn(Pixel, Pixel) -> Pixel,
    width: int,
    height: int,
    x0: int,
    x1: int,
    y: int,
    color: Pixel,
) -> Seq<u8> {
    let from = lesser(x0, x1);
    let to = if x0 < x1 {
        x1
    } else {
        x0
    };
    if y >= height {
        image
    } else {
        row_painted(image, blend, width, Shape::Full, from, lesser(to + 1, width), y, color)
    }
}

fn hline<B: Fn(Pixel, Pixel) -> Pixel>(
    image: &mut Vec<u8>,
    width: usize,
    height: usize,
    x0: usize,
    x1: usize,
    y: usize,
    color: Pixel,
    blend: &B,
)
    requires
        lays_any(*blend),
        height * width * 4 <= usize::MAX,
    ensures
        forall|mix: spec_fn(Pixel, Pixel) -> Pixel| #[trigger]
            follows(*blend, mix) ==> final(image)@ == line_drawn(
                old(image)@,
                mix,
                width as int,
                height as int,
                x0 as int,
                x1 as int,
                y as int,
                color,
            ),
        final(image)@.len() == old(image)@.len(),
{
    if y >= height {
        return;
    }
    let from: usize = if x0 < x1 {
        x0
    } else {
        x1
    };
    let to: usize = if x0 < x1 {
        x1
    } else {
        x0
    };
    let end: usize = end_within(to, 1, width);
    assert((y * width + width) * 4 <= height * width * 4) by (nonlinear_arith)
        requires
            y < height,
    ;
    paint_row(image, width, &Shape::Full, from, end, y, color, blend);
}

fn draw_bars<B: Fn(Pixel, Pixel) -> Pixel>(
    image: &mut Vec<u8>,
    width: usize,
    height: usize,
    bars: &Vec<BarRows>,
    blend: &B,
)
    requires
        lays_any(*blend),
        height * width * 4 <= usize::MAX,
        less(bars@.len() as int, 1) * usable(width as int, CHIP_BAR_MARGIN as int) <= usize::MAX,
        width >= MIN_CHIP_WIDTH,
    ensures
        forall|mix: spec_fn(Pixel, Pixel) -> Pixel| #[trigger]
            follows(*blend, mix) ==> final(image)@ == bars_drawn(
                old(image)@,
                mix,
                width as int,
                height as int,
                bars@,
                bars@.len() as int,
            ),
        final(image)@.len() == old(image)@.len(),
{
    let usable: usize = at_least_one(minus(width, 2 * CHIP_BAR_MARGIN));
    let count: usize = bars.len();
    let len: usize = at_least_one(minus(count, 1));
    for i in 0..count
        invariant
            lays_any(*blend),
            height * width * 4 <= usize::MAX,
            count == bars@.len(),
            less(count as int, 1) * usable <= usize::MAX,
            usable == self::usable(width as int, CHIP_BAR_MARGIN as int),
            CHIP_BAR_MARGIN + usable <= usize::MAX,
            len == one_or_more(less(count as int, 1)),
            image@.len() == old(image)@.len(),
            forall|mix: spec_fn(Pixel, Pixel) -> Pixel| #[trigger]
                follows(*blend, mix) ==> image@ == bars_drawn(
                    old(image)@,
                    mix,
                    width as int,
                    height as int,
                    bars@,
                    i as int,
                ),
    {
        assert(i * usable <= less(count as int, 1) * usable) by (nonlinear_arith)
            requires
                0 <= i <= less(count as int, 1),
                0 <= usable,
        ;
        let offset: usize = i * usable / len;
        assert(offset <= usable) by (nonlinear_arith)
            requires
                offset == (i * usable) / (len as int),
                0 <= i <= len,
                len >= 1,
                usable >= 0,
        ;
        let x: usize = CHIP_BAR_MARGIN + offset;
        let bar: BarRows = bars[i];
        let y: usize = if bar.one < bar.other {
            bar.one
        } else {
            bar.other
        };
        let h: usize = at_least_one(
            if bar.one < bar.other {
                bar.other - bar.one
            } else {
                bar.one - bar.other
            },
        );
        let glow = Pixel { r: 168, g: 107, b: 234, a: 70 };
        let bar = Pixel { r: 169, g: 222, b: 255, a: 235 };
        vbar(image, width, height, x, y, 3, h, glow, blend);
        vbar(image, width, height, x, y, 2, h, bar, blend);
    }
}

fn draw_waveform<B: Fn(Pixel, Pixel) -> Pixel>(
    image: &mut Vec<u8>,
    width: usize,
    height: usize,
    bars: &Vec<BarRows>,
    blend: &B,
)
    requires
        lays_any(*blend),
        height * width * 4 <= usize::MAX,
        less(bars@.len() as int, 1) * usable(width as int, CHIP_BAR_MARGIN as int) <= usize::MAX,
        width >= MIN_CHIP_WIDTH,
        height >= MIN_CHIP_HEIGHT,
    ensures
        forall|mix: spec_fn(Pixel, Pixel) -> Pixel| #[trigger]
            follows(*blend, mix) ==> final(image)@ == waveform_drawn(
                old(image)@,
                mix,
                width as int,
                height as int,
                bars@,
            ),
        final(image)@.len() == old(image)@.len(),
{
    let bottom: usize = minus(height, 18);
    let center: usize = (16 + bottom) / 2;
    hline(
        image,
        width,
        height,
        16,
        minus(width, 16),
        center,
        Pixel { r: 75, g: 98, b: 124, a: 160 },
        blend,
    );
    draw_bars(image, width, height, bars, blend);
}

/// The color of the spectral cell that a pixel of the panel shows. The lowest row is
/// at the bottom.
pub open spec fn cell_color(
    columns: int,
    rows: int,
    colors: Seq<Pixel>,
    blank: Pixel,
    usable_w: int,
    usable_h: int,
    x: int,
    y: int,
) -> Pixel {
    let row = less(less(rows, 1), y * rows / usable_h);
    let column = x * columns / usable_w;
    let cell = column * rows + row;
    if cell < colors.len() {
        colors[cell]
    } else {
        blank
    }
}

/// An image after one row of cells was drawn, up to before column `x1` of the panel.
pub open spec fn cell_row_drawn(
    image: Seq<u8>,
    blend: spec_fn(Pixel, Pixel) -> Pixel,
    width: int,
    columns: int,
    rows: int,
    colors: Seq<Pixel>,
    blank: Pixel,
    margin: int,
    usable_w: int,
    usable_h: int,
    y: int,
    x1: int,
) -> Seq<u8>
    decreases x1,
{
    if x1 <= 0 {
        image
    } else {
        let before = cell_row_drawn(
            image,
            blend,
            width,
            columns,
            rows,
            colors,
            blank,
            margin,
            usable_w,
            usable_h,
            y,
            x1 - 1,
        );
        dabbed(
            before,
            blend,
            width,
            margin + x1 - 1,
            margin + y,
            cell_color(columns, rows, colors, blank, usable_w, usable_h, x1 - 1, y),
        )
    }
}

/// An image after the cells were drawn, up to before row `y1` of the panel.
pub open spec fn cells_drawn(
    image: Seq<u8>,
    blend: spec_fn(Pixel, Pixel) -> Pixel,
    width: int,
    columns: int,
    rows: int,
    colors: Seq<Pixel>,
    blank: Pixel,
    margin: int,
    usable_w: int,
    usable_h: int,
    y1: int,
) -> Seq<u8>
    decreases y1,
{
    if y1 <= 0 {
        image
    } else {
        cell_row_drawn(
            cells_drawn(
                image,
                blend,
                width,
                columns,
                rows,
                colors,
                blank,
                margin,
                usable_w,
                usable_h,
                y1 - 1,
            ),
            blend,
            width,
            columns,
            rows,
            colors,
            blank,
            margin,
            usable_w,
            usable_h,
            y1 - 1,
            usable_w,
        )
    }
}

/// An image after a spectral preview was drawn within a margin.
pub open spec fn spectral_drawn(
    image: Seq<u8>,
    blend: spec_fn(Pixel, Pixel) -> Pixel,
    width: int,
    height: int,
    margin: int,
    columns: int,
    rows: int,
    colors: Seq<Pixel>,
    blank: Pixel,
) -> Seq<u8> {
    let usable_w = usable(width, margin);
    let usable_h = usable(height, margin);
    if columns == 0 || rows == 0 || colors.len() == 0 {
        image
    } else {
        cells_drawn(
            image,
            blend,
            width,
            columns,
            rows,
            colors,
            blank,
            margin,
            usable_w,
            usable_h,
            usable_h,
        )
    }
}

fn spectral_cell(
    columns: usize,
    rows: usize,
    colors: &Vec<Pixel>,
    blank: Pixel,
    usable_w: usize,
    usable_h: usize,
    x: usize,
    y: usize,
) -> (pixel: Pixel)
    requires
        usable_w >= 1,
        usable_h >= 1,
        x * columns <= usize::MAX,
        y * rows <= usize::MAX,
    ensures
        pixel == cell_color(
            columns as int,
            rows as int,
            colors@,
            blank,
            usable_w as int,
            usable_h as int,
            x as int,
            y as int,
        ),
{
    let row: usize = minus(minus(rows, 1), y * rows / usable_h);
    let column: usize = x * columns / usable_w;
    let size: usize = colors.len();
    match column.checked_mul(rows) {
        Some(start) => {
            if start < size && row < size - start {
                colors[start + row]
            } else {
                blank
            }
        },
        None => blank,
    }
}

pub(crate) fn draw_spectral<B: Fn(Pixel, Pixel) -> Pixel>(
    image: &mut Vec<u8>,
    width: usize,
    height: usize,
    margin: usize,
    columns: usize,
    rows: usize,
    colors: &Vec<Pixel>,
    blank: Pixel,
    blend: &B,
)
    requires
        lays_any(*blend),
        height * width * 4 <= usize::MAX,
        margin <= 14,
        width >= MIN_CHIP_WIDTH,
        height >= MIN_CHIP_HEIGHT,
        cells_scale(
            columns as int,
            rows as int,
            colors@.len(),
            usable(width as int, margin as int),
            usable(height as int, margin as int),
        ),
    ensures
        forall|mix: spec_fn(Pixel, Pixel) -> Pixel| #[trigger]
            follows(*blend, mix) ==> final(image)@ == spectral_drawn(
                old(image)@,
                mix,
                width as int,
                height as int,
                margin as int,
                columns as int,
                rows as int,
                colors@,
                blank,
            ),
        final(image)@.len() == old(image)@.len(),
{
    if columns == 0 || rows == 0 || colors.len() == 0 {
        return;
    }
    let usable_w: usize = at_least_one(minus(width, 2 * margin));
    let usable_h: usize = at_least_one(minus(height, 2 * margin));
    assert(usable_w <= width && usable_h <= height);
    assert(margin + usable_h <= height);
    for y in 0..usable_h
        invariant
            lays_any(*blend),
            height * width * 4 <= usize::MAX,
            margin <= 14,
            usable_w >= 1,
            usable_h >= 1,
            usable_w <= width,
            usable_h <= height,
            margin + usable_h <= height,
            (usable_w - 1) * columns <= usize::MAX,
            (usable_h - 1) * rows <= usize::MAX,
            image@.len() == old(image)@.len(),
            forall|mix: spec_fn(Pixel, Pixel) -> Pixel| #[trigger]
                follows(*blend, mix) ==> image@ == cells_drawn(
                    old(image)@,
                    mix,
                    width as int,
                    columns as int,
                    rows as int,
                    colors@,
                    blank,
                    margin as int,
                    usable_w as int,
                    usable_h as int,
                    y as int,
                ),
    {
        let ghost rows_before = image@;
        assert(y * rows <= usize::MAX) by (nonlinear_arith)
            requires
                0 <= y <= usable_h - 1,
                (usable_h - 1) * rows <= usize::MAX,
                0 <= rows,
        ;
        assert(((margin + y) * width + width) * 4 <= height * width * 4) by (nonlinear_arith)
            requires
                margin + y < height,
                0 <= width,
        ;
        for x in 0..usable_w
            invariant
                lays_any(*blend),
                ((margin + y) * width + width) * 4 <= usize::MAX,
                margin <= 14,
                y < usable_h,
                margin + usable_h <= usize::MAX,
                usable_w >= 1,
                usable_h >= 1,
                usable_w <= width,
                (usable_w - 1) * columns <= usize::MAX,
                y * rows <= usize::MAX,
                margin + usable_w <= usize::MAX,
                image@.len() == old(image)@.len(),
                forall|mix: spec_fn(Pixel, Pixel) -> Pixel| #[trigger]
                    follows(*blend, mix) ==> image@ == cell_row_drawn(
                        rows_before,
                        mix,
                        width as int,
                        columns as int,
                        rows as int,
                        colors@,
                        blank,
                        margin as int,
                        usable_w as int,
                        usable_h as int,
                        y as int,
                        x as int,
                    ),
        {
            assert(x * columns <= usize::MAX) by (nonlinear_arith)
                requires
                    0 <= x <= usable_w - 1,
                    (usable_w - 1) * columns <= usize::MAX,
                    0 <= columns,
            ;
            let pixel = spectral_cell(columns, rows, colors, blank, usable_w, usable_h, x, y);
            set_pixel(image, width, margin + x, margin + y, pixel, blend);
        }
    }
}

/// An image after the first `count` notes were drawn.
pub open spec fn notes_drawn(
    image: Seq<u8>,
    blend: spec_fn(Pixel, Pixel) -> Pixel,
    width: int,
    height: int,
    notes: Seq<NoteRect>,
    count: int,
) -> Seq<u8>
    decreases count,
{
    if count <= 0 {
        image
    } else {
        let note = notes[count - 1];
        rounded_filled(
            notes_drawn(image, blend, width, height, notes, count - 1),
            blend,
            width,
            height,
            rounded(note.x, note.y, note.w, note.h, 2),
            color(120, 210, 190, 230),
        )
    }
}

/// An image after a piano roll was drawn: the first notes, or a quiet line when there
/// are none.
pub open spec fn midi_drawn(
    image: Seq<u8>,
    blend: spec_fn(Pixel, Pixel) -> Pixel,
    width: int,
    height: int,
    notes: Seq<NoteRect>,
) -> Seq<u8> {
    if notes.len() == 0 {
        line_drawn(
            image,
            blend,
            width,
            height,
            14,
            14 + less(width, 28),
            14 + less(height, 28) / 2,
            color(55, 72, 92, 120),
        )
    } else {
        notes_drawn(
            image,
            blend,
            width,
            height,
            notes,
            lesser(notes.len() as int, MAX_DRAWN_NOTES as int),
        )
    }
}

fn draw_midi<B: Fn(Pixel, Pixel) -> Pixel>(
    image: &mut Vec<u8>,
    width: usize,
    height: usize,
    notes: &Vec<NoteRect>,
    blend: &B,
)
    requires
        lays_any(*blend),
        height * width * 4 <= usize::MAX,
        width >= MIN_CHIP_WIDTH,
        height >= MIN_CHIP_HEIGHT,
    ensures
        forall|mix: spec_fn(Pixel, Pixel) -> Pixel| #[trigger]
            follows(*blend, mix) ==> final(image)@ == midi_drawn(old(image)@, mix, width as int, height as int, notes@),
        final(image)@.len() == old(image)@.len(),
{
    if notes.len() == 0 {
        let right: usize = 14 + minus(width, 28);
        let middle: usize = 14 + minus(height, 28) / 2;
        hline(
            image,
            width,
            height,
            14,
            right,
            middle,
            Pixel { r: 55, g: 72, b: 92, a: 120 },
            blend,
        );
        return;
    }
    let count: usize = if notes.len() < MAX_DRAWN_NOTES {
        notes.len()
    } else {
        MAX_DRAWN_NOTES
    };
    for i in 0..count
        invariant
            lays_any(*blend),
            height * width * 4 <= usize::MAX,
            count <= notes@.len(),
            image@.len() == old(image)@.len(),
            forall|mix: spec_fn(Pixel, Pixel) -> Pixel| #[trigger]
                follows(*blend, mix) ==> image@ == notes_drawn(
                    old(image)@,
                    mix,
                    width as int,
                    height as int,
                    notes@,
                    i as int,
                ),
    {
        let note: NoteRect = notes[i];
        let rect = rounded_rect(note.x, note.y, note.w, note.h, 2);
        proof {
            small_corners(rect.r as int, 2);
        }
        fill_rounded(
            image,
            width,
            height,
            &rect,
            Pixel { r: 120, g: 210, b: 190, a: 230 },
            blend,
        );
    }
}

proof fn small_corners(r: int, radius: int)
    requires
        0 <= r <= radius,
        radius <= 12,
    ensures
        2 * r * r <= usize::MAX,
{
    assert(2 * r * r <= 288) by (nonlinear_arith)
        requires
            0 <= r <= 12,
    ;
}

// ---------------------------------------------------------------------------
// The chip
// ---------------------------------------------------------------------------

/// The empty card of a chip: a soft shadow, the card, the panel and the border.
pub open spec fn card_drawn(
    image: Seq<u8>,
    blend: spec_fn(Pixel, Pixel) -> Pixel,
    width: usize,
    height: usize,
) -> Seq<u8> {
    let w = width as int;
    let h = height as int;
    let card = rounded(4, 4, less(w, 8) as usize, less(h, 10) as usize, 12);
    let shadow = rounded_filled(
        image,
        blend,
        w,
        h,
        rounded(6, 8, less(w, 8) as usize, less(h, 6) as usize, 10),
        color(0, 0, 0, 55),
    );
    let outer = rounded_filled(shadow, blend, w, h, card, color(18, 16, 28, 245));
    let panel = rounded_filled(
        outer,
        blend,
        w,
        h,
        rounded(10, 10, less(w, 20) as usize, less(h, 22) as usize, 8),
        color(13, 19, 30, 255),
    );
    rounded_stroked(panel, blend, w, h, card, color(204, 222, 238, 90))
}

/// An image after a chip was drawn.
pub open spec fn chip_drawn(
    image: Seq<u8>,
    blend: spec_fn(Pixel, Pixel) -> Pixel,
    width: usize,
    height: usize,
    content: ContentView,
) -> Seq<u8> {
    let card = card_drawn(image, blend, width, height);
    match content {
        ContentView::Waveform { bars } => waveform_drawn(
            card,
            blend,
            width as int,
            height as int,
            bars,
        ),
        ContentView::Spectral { columns, rows, colors, blank } => spectral_drawn(
            card,
            blend,
            width as int,
            height as int,
            CHIP_CELL_MARGIN as int,
            columns as int,
            rows as int,
            colors,
            blank,
        ),
        ContentView::Midi { notes } => midi_drawn(card, blend, width as int, height as int, notes),
    }
}

fn draw_chip<B: Fn(Pixel, Pixel) -> Pixel>(
    image: &mut Vec<u8>,
    width: usize,
    height: usize,
    content: &ChipContent,
    blend: &B,
)
    requires
        lays_any(*blend),
        height * width * 4 <= usize::MAX,
        width >= MIN_CHIP_WIDTH,
        height >= MIN_CHIP_HEIGHT,
        content@.scales_to(
            width as int,
            height as int,
            CHIP_BAR_MARGIN as int,
            CHIP_CELL_MARGIN as int,
        ),
    ensures
        forall|mix: spec_fn(Pixel, Pixel) -> Pixel| #[trigger]
            follows(*blend, mix) ==> final(image)@ == chip_drawn(old(image)@, mix, width, height, content@),
        final(image)@.len() == old(image)@.len(),
{
    let shadow = rounded_rect(6, 8, minus(width, 8), minus(height, 6), 10);
    let card = rounded_rect(4, 4, minus(width, 8), minus(height, 10), 12);
    let panel = rounded_rect(10, 10, minus(width, 20), minus(height, 22), 8);
    proof {
        small_corners(shadow.r as int, 10);
        small_corners(card.r as int, 12);
        small_corners(panel.r as int, 8);
    }
    let shade = Pixel { r: 0, g: 0, b: 0, a: 55 };
    let face = Pixel { r: 18, g: 16, b: 28, a: 245 };
    let ground = Pixel { r: 13, g: 19, b: 30, a: 255 };
    let edge = Pixel { r: 204, g: 222, b: 238, a: 90 };
    fill_rounded(image, width, height, &shadow, shade, blend);
    fill_rounded(image, width, height, &card, face, blend);
    fill_rounded(image, width, height, &panel, ground, blend);
    stroke_rounded(image, width, height, &card, edge, blend);
    match content {
        ChipContent::Waveform { bars } => {
            draw_waveform(image, width, height, bars, blend)
        },
        ChipContent::Spectral { columns, rows, colors, blank } => draw_spectral(
            image,
            width,
            height,
            CHIP_CELL_MARGIN,
            *columns,
            *rows,
            colors,
            *blank,
            blend,
        ),
        ChipContent::Midi { notes } => draw_midi(image, width, height, notes, blend),
    }
}

/// A transparent image.
pub open spec fn transparent(len: nat) -> Seq<u8> {
    Seq::new(len, |i: int| 0u8)
}

pub(crate) fn clear_image(len: usize) -> (image: Vec<u8>)
    ensures
        image@ == transparent(len as nat),
{
    let mut image: Vec<u8> = Vec::new();
    for i in 0..len
        invariant
            image@ == transparent(i as nat),
    {
        image.push(0);
        assert(image@ =~= transparent((i + 1) as nat));
    }
    image
}

/// The larger of two numbers.
pub open spec fn larger(a: usize, b: usize) -> usize {
    if a < b {
        b
    } else {
        a
    }
}

/// Rasterize at a custom size (static upright chip). The size is at least
/// [`MIN_CHIP_WIDTH`] by [`MIN_CHIP_HEIGHT`].
#[must_use]
pub fn render_drag_chip_sized<B: Fn(Pixel, Pixel) -> Pixel>(
    content: &ChipContent,
    width: usize,
    height: usize,
    blend: &B,
) -> (image: DragChipImage)
    requires
        mixes(*blend),
        larger(height, MIN_CHIP_HEIGHT) * larger(width, MIN_CHIP_WIDTH) * 4 <= usize::MAX,
        content@.scales_to(
            larger(width, MIN_CHIP_WIDTH) as int,
            larger(height, MIN_CHIP_HEIGHT) as int,
            CHIP_BAR_MARGIN as int,
            CHIP_CELL_MARGIN as int,
        ),
    ensures
        image.width == larger(width, MIN_CHIP_WIDTH),
        image.height == larger(height, MIN_CHIP_HEIGHT),
        image.rgba@.len() == image.width * image.height * 4,
        forall|mix: spec_fn(Pixel, Pixel) -> Pixel| #[trigger]
            follows(*blend, mix) ==> image.rgba@ == chip_drawn(
                transparent((image.width * image.height * 4) as nat),
                mix,
                image.width,
                image.height,
                content@,
            ),
        image.rgba@ == chip_drawn(
            transparent((image.width * image.height * 4) as nat),
            mix_of(*blend),
            image.width,
            image.height,
            content@,
        ),
{
    let w: usize = if width < MIN_CHIP_WIDTH {
        MIN_CHIP_WIDTH
    } else {
        width
    };
    let h: usize = if height < MIN_CHIP_HEIGHT {
        MIN_CHIP_HEIGHT
    } else {
        height
    };
    assert(h * w * 4 == w * h * 4) by (nonlinear_arith);
    assert(w * h <= w * h * 4) by (nonlinear_arith)
        requires
            0 <= w * h,
    ;
    assert(0 <= w * h) by (nonlinear_arith)
        requires
            0 <= w,
            0 <= h,
    ;
    let mut rgba = clear_image(w * h * 4);
    proof {
        mixing_follows_itself(*blend);
    }
    draw_chip(&mut rgba, w, h, content, blend);
    DragChipImage { width: w, height: h, rgba }
}

/// Rasterize preview metadata into the shared chip look.
#[must_use]
pub fn render_drag_chip<B: Fn(Pixel, Pixel) -> Pixel>(content: &ChipContent, blend: &B) -> (image:
    DragChipImage)
    requires
        mixes(*blend),
        content@.scales_to(
            CHIP_WIDTH as int,
            CHIP_HEIGHT as int,
            CHIP_BAR_MARGIN as int,
            CHIP_CELL_MARGIN as int,
        ),
    ensures
        image.width == CHIP_WIDTH,
        image.height == CHIP_HEIGHT,
        image.rgba@.len() == CHIP_WIDTH * CHIP_HEIGHT * 4,
        forall|mix: spec_fn(Pixel, Pixel) -> Pixel| #[trigger]
            follows(*blend, mix) ==> image.rgba@ == chip_drawn(
                transparent((CHIP_WIDTH * CHIP_HEIGHT * 4) as nat),
                mix,
                CHIP_WIDTH,
                CHIP_HEIGHT,
                content@,
            ),
        image.rgba@ == chip_drawn(
            transparent((CHIP_WIDTH * CHIP_HEIGHT * 4) as nat),
            mix_of(*blend),
            CHIP_WIDTH,
            CHIP_HEIGHT,
            content@,
        ),
{
    render_drag_chip_sized(content, CHIP_WIDTH, CHIP_HEIGHT, blend)
}

} // verus!
