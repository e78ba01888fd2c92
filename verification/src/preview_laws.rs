//! What the pixels of a drag chip show.

use vstd::prelude::*;

use crate::preview_render::{
    area_painted, bar_column, bar_filled, bar_height, bar_top, bars_drawn, card_drawn, cell_row_drawn, cells_drawn, chip_drawn,
    corner_depth, dabbed, less, line_drawn, midi_drawn, notes_drawn, one_or_more, pixel_at, rounded, rounded_filled,
    rounded_stroked, row_painted, spectral_drawn, usable, waveform_drawn, with_pixel, BarRows,
    ContentView, NoteRect, Pixel, RoundedRect, Shape,
};

verus! {

/// The pixel of an image at a column and a row.
pub open spec fn pixel(image: Seq<u8>, width: int, x: int, y: int) -> Pixel {
    pixel_at(image, (y * width + x) * 4)
}

/// Whether an image has a size, and a position lies in it.
pub open spec fn inside(image: Seq<u8>, width: int, height: int, x: int, y: int) -> bool {
    &&& image.len() == width * height * 4
    &&& 0 <= x < width
    &&& 0 <= y < height
}

proof fn position_in_image(width: int, height: int, x: int, y: int)
    requires
        0 <= x < width,
        0 <= y < height,
    ensures
        0 <= (y * width + x) * 4,
        (y * width + x) * 4 + 3 < width * height * 4,
{
    assert(y * width + x < width * height) by (nonlinear_arith)
        requires
            0 <= x < width,
            0 <= y < height,
    ;
    assert(0 <= y * width + x) by (nonlinear_arith)
        requires
            0 <= x < width,
            0 <= y < height,
    ;
}

proof fn positions_differ(width: int, x: int, y: int, qx: int, qy: int)
    requires
        0 <= x < width,
        0 <= qx < width,
        x != qx || y != qy,
    ensures
        y * width + x != qy * width + qx,
{
    if y < qy {
        assert(y * width + x < qy * width + qx) by (nonlinear_arith)
            requires
                y + 1 <= qy,
                0 <= x < width,
                0 <= qx,
        ;
    } else if qy < y {
        assert(qy * width + qx < y * width + x) by (nonlinear_arith)
            requires
                qy + 1 <= y,
                0 <= qx < width,
                0 <= x,
        ;
    }
}

/// Laying a color over one pixel changes that pixel and no other one.
pub proof fn one_pixel_is_dabbed(
    image: Seq<u8>,
    mix: spec_fn(Pixel, Pixel) -> Pixel,
    width: int,
    height: int,
    x: int,
    y: int,
    color: Pixel,
    qx: int,
    qy: int,
)
    requires
        inside(image, width, height, qx, qy),
        0 <= x,
        0 <= y,
    ensures
        dabbed(image, mix, width, x, y, color).len() == image.len(),
        pixel(dabbed(image, mix, width, x, y, color), width, qx, qy) == (if x == qx && y == qy {
            mix(pixel(image, width, qx, qy), color)
        } else {
            pixel(image, width, qx, qy)
        }),
{
    let i = (y * width + x) * 4;
    let q = (qy * width + qx) * 4;
    position_in_image(width, height, qx, qy);
    if x < width {
        if y < height {
            position_in_image(width, height, x, y);
        }
        if x != qx || y != qy {
            positions_differ(width, x, y, qx, qy);
        }
        if i + 3 < image.len() {
            assert(0 <= i) by (nonlinear_arith)
                requires
                    i == (y * width + x) * 4,
                    0 <= x,
                    0 <= y,
                    0 <= width,
            ;
            let laid = mix(pixel_at(image, i), color);
            assert(with_pixel(image, i, laid).len() == image.len());
        }
    }
}

proof fn row_pixels(
    image: Seq<u8>,
    mix: spec_fn(Pixel, Pixel) -> Pixel,
    width: int,
    height: int,
    shape: Shape,
    x0: int,
    x1: int,
    y: int,
    color: Pixel,
    qx: int,
    qy: int,
)
    requires
        inside(image, width, height, qx, qy),
        0 <= x0,
        0 <= y,
    ensures
        row_painted(image, mix, width, shape, x0, x1, y, color).len() == image.len(),
        pixel(row_painted(image, mix, width, shape, x0, x1, y, color), width, qx, qy) == (if qy
            == y && x0 <= qx < x1 && shape.fills(qx, qy) {
            mix(pixel(image, width, qx, qy), color)
        } else {
            pixel(image, width, qx, qy)
        }),
    decreases x1 - x0,
{
    if x0 < x1 {
        row_pixels(image, mix, width, height, shape, x0, x1 - 1, y, color, qx, qy);
        let before = row_painted(image, mix, width, shape, x0, x1 - 1, y, color);
        one_pixel_is_dabbed(before, mix, width, height, x1 - 1, y, color, qx, qy);
    }
}

/// Filling a shape lays the color once over each pixel of the shape within the given
/// columns and rows, and over no other one.
pub proof fn area_pixels(
    image: Seq<u8>,
    mix: spec_fn(Pixel, Pixel) -> Pixel,
    width: int,
    height: int,
    shape: Shape,
    x0: int,
    x1: int,
    y0: int,
    y1: int,
    color: Pixel,
    qx: int,
    qy: int,
)
    requires
        inside(image, width, height, qx, qy),
        0 <= x0,
        0 <= y0,
    ensures
        area_painted(image, mix, width, shape, x0, x1, y0, y1, color).len() == image.len(),
        pixel(area_painted(image, mix, width, shape, x0, x1, y0, y1, color), width, qx, qy) == (
        if x0 <= qx < x1 && y0 <= qy < y1 && shape.fills(qx, qy) {
            mix(pixel(image, width, qx, qy), color)
        } else {
            pixel(image, width, qx, qy)
        }),
    decreases y1 - y0,
{
    if y0 < y1 {
        area_pixels(image, mix, width, height, shape, x0, x1, y0, y1 - 1, color, qx, qy);
        let before = area_painted(image, mix, width, shape, x0, x1, y0, y1 - 1, color);
        row_pixels(before, mix, width, height, shape, x0, x1, y1 - 1, color, qx, qy);
    }
}

// ---------------------------------------------------------------------------
// Figures
// ---------------------------------------------------------------------------

proof fn rounded_pixels(
    image: Seq<u8>,
    mix: spec_fn(Pixel, Pixel) -> Pixel,
    width: int,
    height: int,
    rect: RoundedRect,
    color: Pixel,
    qx: int,
    qy: int,
)
    requires
        inside(image, width, height, qx, qy),
    ensures
        rounded_filled(image, mix, width, height, rect, color).len() == image.len(),
        pixel(rounded_filled(image, mix, width, height, rect, color), width, qx, qy) == (
        if rect.covers(qx, qy) {
            mix(pixel(image, width, qx, qy), color)
        } else {
            pixel(image, width, qx, qy)
        }),
        rounded_stroked(image, mix, width, height, rect, color).len() == image.len(),
        pixel(rounded_stroked(image, mix, width, height, rect, color), width, qx, qy) == (
        if rect.covers(qx, qy) && !rect.inset().covers(qx, qy) {
            mix(pixel(image, width, qx, qy), color)
        } else {
            pixel(image, width, qx, qy)
        }),
{
    let x1 = if rect.x + rect.w < width {
        rect.x + rect.w
    } else {
        width
    };
    let y1 = if rect.y + rect.h < height {
        rect.y + rect.h
    } else {
        height
    };
    area_pixels(
        image,
        mix,
        width,
        height,
        Shape::Rounded(rect),
        rect.x as int,
        x1,
        rect.y as int,
        y1,
        color,
        qx,
        qy,
    );
    area_pixels(
        image,
        mix,
        width,
        height,
        Shape::Edge(rect),
        rect.x as int,
        x1,
        rect.y as int,
        y1,
        color,
        qx,
        qy,
    );
}

/// A bar colors exactly the pixels of its rectangle, each once.
pub proof fn bar_colors_its_rectangle(
    image: Seq<u8>,
    mix: spec_fn(Pixel, Pixel) -> Pixel,
    width: int,
    height: int,
    x: int,
    y: int,
    w: int,
    h: int,
    color: Pixel,
    qx: int,
    qy: int,
)
    requires
        inside(image, width, height, qx, qy),
        0 <= x,
        0 <= y,
    ensures
        bar_filled(image, mix, width, height, x, y, w, h, color).len() == image.len(),
        pixel(bar_filled(image, mix, width, height, x, y, w, h, color), width, qx, qy) == (if x
            <= qx < x + w && y <= qy < y + h {
            mix(pixel(image, width, qx, qy), color)
        } else {
            pixel(image, width, qx, qy)
        }),
{
    let x1 = if x + w < width {
        x + w
    } else {
        width
    };
    let y1 = if y + h < height {
        y + h
    } else {
        height
    };
    area_pixels(image, mix, width, height, Shape::Full, x, x1, y, y1, color, qx, qy);
}

/// A line colors exactly the pixels of its row between its ends, both included.
pub proof fn line_colors_its_row(
    image: Seq<u8>,
    mix: spec_fn(Pixel, Pixel) -> Pixel,
    width: int,
    height: int,
    x0: int,
    x1: int,
    y: int,
    color: Pixel,
    qx: int,
    qy: int,
)
    requires
        inside(image, width, height, qx, qy),
        0 <= x0,
        0 <= x1,
        0 <= y,
    ensures
        line_drawn(image, mix, width, height, x0, x1, y, color).len() == image.len(),
        pixel(line_drawn(image, mix, width, height, x0, x1, y, color), width, qx, qy) == (if qy
            == y && (x0 <= qx <= x1 || x1 <= qx <= x0) {
            mix(pixel(image, width, qx, qy), color)
        } else {
            pixel(image, width, qx, qy)
        }),
{
    let from = if x0 < x1 {
        x0
    } else {
        x1
    };
    let to = if x0 < x1 {
        x1
    } else {
        x0
    };
    let end = if to + 1 < width {
        to + 1
    } else {
        width
    };
    row_pixels(image, mix, width, height, Shape::Full, from, end, y, color, qx, qy);
}

/// A rectangle with round corners lies in its sides, holds every pixel that is as far from
/// the left and right sides, or from the upper and lower ones, as the radius says, and is
/// the same from all four sides. Its corner pixels are cut off.
pub proof fn rounded_rectangles_fill_their_sides(
    x: usize,
    y: usize,
    w: usize,
    h: usize,
    radius: usize,
    qx: int,
    qy: int,
)
    ensures
        ({
            let rect = rounded(x, y, w, h, radius);
            let covered = rect.covers(qx, qy);
            &&& covered ==> x <= qx < x + w && y <= qy < y + h
            &&& x + radius <= qx < x + w - radius && y <= qy < y + h ==> covered
            &&& x <= qx < x + w && y + radius <= qy < y + h - radius ==> covered
            &&& covered == rect.covers(2 * x + w - 1 - qx, qy)
            &&& covered == rect.covers(qx, 2 * y + h - 1 - qy)
            &&& radius >= 1 && w >= 2 && h >= 2 ==> !rect.covers(x as int, y as int)
        }),
{
    let rect = rounded(x, y, w, h, radius);
    if radius >= 1 && w >= 2 && h >= 2 {
        let r = rect.r as int;
        assert(r >= 1);
        assert(r * r + r * r > r * r) by (nonlinear_arith)
            requires
                r >= 1,
        ;
    }
}

// ---------------------------------------------------------------------------
// The card
// ---------------------------------------------------------------------------

proof fn card_pixels(
    image: Seq<u8>,
    mix: spec_fn(Pixel, Pixel) -> Pixel,
    width: usize,
    height: usize,
    qx: int,
    qy: int,
)
    requires
        inside(image, width as int, height as int, qx, qy),
        width >= 32,
        height >= 24,
    ensures
        card_drawn(image, mix, width, height).len() == image.len(),
        ({
            let shadow = rounded(6, 8, (width - 8) as usize, (height - 6) as usize, 10);
            let card = rounded(4, 4, (width - 8) as usize, (height - 10) as usize, 12);
            let panel = rounded(10, 10, (width - 20) as usize, (height - 22) as usize, 8);
            let p0 = pixel(image, width as int, qx, qy);
            let p1 = if shadow.covers(qx, qy) {
                mix(p0, Pixel { r: 0, g: 0, b: 0, a: 55 })
            } else {
                p0
            };
            let p2 = if card.covers(qx, qy) {
                mix(p1, Pixel { r: 18, g: 16, b: 28, a: 245 })
            } else {
                p1
            };
            let p3 = if panel.covers(qx, qy) {
                mix(p2, Pixel { r: 13, g: 19, b: 30, a: 255 })
            } else {
                p2
            };
            pixel(card_drawn(image, mix, width, height), width as int, qx, qy) == (
            if card.covers(qx, qy) && !card.inset().covers(qx, qy) {
                mix(p3, Pixel { r: 204, g: 222, b: 238, a: 90 })
            } else {
                p3
            })
        }),
{
    let w = width as int;
    let h = height as int;
    let shadow = rounded(6, 8, (width - 8) as usize, (height - 6) as usize, 10);
    let card = rounded(4, 4, (width - 8) as usize, (height - 10) as usize, 12);
    let panel = rounded(10, 10, (width - 20) as usize, (height - 22) as usize, 8);
    let c1 = Pixel { r: 0, g: 0, b: 0, a: 55 };
    let c2 = Pixel { r: 18, g: 16, b: 28, a: 245 };
    let c3 = Pixel { r: 13, g: 19, b: 30, a: 255 };
    let c4 = Pixel { r: 204, g: 222, b: 238, a: 90 };
    let i1 = rounded_filled(image, mix, w, h, shadow, c1);
    let i2 = rounded_filled(i1, mix, w, h, card, c2);
    let i3 = rounded_filled(i2, mix, w, h, panel, c3);
    rounded_pixels(image, mix, w, h, shadow, c1, qx, qy);
    rounded_pixels(i1, mix, w, h, card, c2, qx, qy);
    rounded_pixels(i2, mix, w, h, panel, c3, qx, qy);
    rounded_pixels(i3, mix, w, h, card, c4, qx, qy);
}

/// In the middle of a chip the panel lies over the card, and the card over its shadow.
pub proof fn panel_lies_on_the_card(
    image: Seq<u8>,
    mix: spec_fn(Pixel, Pixel) -> Pixel,
    width: usize,
    height: usize,
    qx: int,
    qy: int,
)
    requires
        inside(image, width as int, height as int, qx, qy),
        width >= 32,
        height >= 24,
        18 <= qx < width - 18,
        10 <= qy < height - 12,
    ensures
        pixel(card_drawn(image, mix, width, height), width as int, qx, qy) == mix(
            mix(
                mix(pixel(image, width as int, qx, qy), Pixel { r: 0, g: 0, b: 0, a: 55 }),
                Pixel { r: 18, g: 16, b: 28, a: 245 },
            ),
            Pixel { r: 13, g: 19, b: 30, a: 255 },
        ),
{
    card_pixels(image, mix, width, height, qx, qy);
}

/// Around a chip nothing is drawn, and its upper and left borders are drawn on the card.
pub proof fn card_has_a_border_and_nothing_around_it(
    image: Seq<u8>,
    mix: spec_fn(Pixel, Pixel) -> Pixel,
    width: usize,
    height: usize,
    qx: int,
    qy: int,
)
    requires
        inside(image, width as int, height as int, qx, qy),
        width >= 32,
        height >= 24,
    ensures
        qx < 4 || qy < 4 || qx >= width - 2 ==> pixel(
            card_drawn(image, mix, width, height),
            width as int,
            qx,
            qy,
        ) == pixel(image, width as int, qx, qy),
        (qx == 4 && 16 <= qy < height - 18) || (qy == 4 && 16 <= qx < width - 16) ==> pixel(
            card_drawn(image, mix, width, height),
            width as int,
            qx,
            qy,
        ) == mix(
            mix(pixel(image, width as int, qx, qy), Pixel { r: 18, g: 16, b: 28, a: 245 }),
            Pixel { r: 204, g: 222, b: 238, a: 90 },
        ),
{
    card_pixels(image, mix, width, height, qx, qy);
}

// ---------------------------------------------------------------------------
// Notes
// ---------------------------------------------------------------------------

/// A pixel after a color was laid over it some times.
pub open spec fn laid(
    mix: spec_fn(Pixel, Pixel) -> Pixel,
    below: Pixel,
    color: Pixel,
    times: nat,
) -> Pixel
    decreases times,
{
    if times == 0 {
        below
    } else {
        mix(laid(mix, below, color, (times - 1) as nat), color)
    }
}

/// Whether a pixel lies in the rectangle of a note.
pub open spec fn in_note(note: NoteRect, qx: int, qy: int) -> bool {
    note.x <= qx < note.x + note.w && note.y <= qy < note.y + note.h
}

/// Whether a pixel lies in a note, off its left and right ends.
pub open spec fn within_note(note: NoteRect, qx: int, qy: int) -> bool {
    note.x + 2 <= qx < note.x + note.w - 2 && note.y <= qy < note.y + note.h
}

proof fn note_pixels(
    image: Seq<u8>,
    mix: spec_fn(Pixel, Pixel) -> Pixel,
    width: int,
    height: int,
    notes: Seq<NoteRect>,
    count: int,
    qx: int,
    qy: int,
) -> (times: nat)
    requires
        inside(image, width, height, qx, qy),
        0 <= count <= notes.len(),
    ensures
        notes_drawn(image, mix, width, height, notes, count).len() == image.len(),
        pixel(notes_drawn(image, mix, width, height, notes, count), width, qx, qy) == laid(
            mix,
            pixel(image, width, qx, qy),
            Pixel { r: 120, g: 210, b: 190, a: 230 },
            times,
        ),
        (exists|i: int| 0 <= i < count && within_note(#[trigger] notes[i], qx, qy)) ==> times >= 1,
        (forall|i: int| 0 <= i < count ==> !in_note(#[trigger] notes[i], qx, qy)) ==> times == 0,
        times <= count,
    decreases count,
{
    if count == 0 {
        0
    } else {
        let before = note_pixels(image, mix, width, height, notes, count - 1, qx, qy);
        let note = notes[count - 1];
        let color = Pixel { r: 120, g: 210, b: 190, a: 230 };
        rounded_pixels(
            notes_drawn(image, mix, width, height, notes, count - 1),
            mix,
            width,
            height,
            rounded(note.x, note.y, note.w, note.h, 2),
            color,
            qx,
            qy,
        );
        rounded_rectangles_fill_their_sides(note.x, note.y, note.w, note.h, 2, qx, qy);
        if rounded(note.x, note.y, note.w, note.h, 2).covers(qx, qy) {
            before + 1
        } else {
            before
        }
    }
}

/// A piano roll shows each of the first 96 notes along its whole rectangle: over a pixel of
/// a note the color of notes lies at least once on the card. A pixel in no note shows the
/// card.
pub proof fn notes_are_shown_where_they_are(
    image: Seq<u8>,
    mix: spec_fn(Pixel, Pixel) -> Pixel,
    width: usize,
    height: usize,
    notes: Seq<NoteRect>,
    qx: int,
    qy: int,
)
    requires
        inside(image, width as int, height as int, qx, qy),
        width >= 32,
        height >= 24,
        notes.len() > 0,
    ensures
        ({
            let shown = pixel(
                chip_drawn(image, mix, width, height, ContentView::Midi { notes }),
                width as int,
                qx,
                qy,
            );
            let card = pixel(card_drawn(image, mix, width, height), width as int, qx, qy);
            let color = Pixel { r: 120, g: 210, b: 190, a: 230 };
            &&& (exists|i: int|
                0 <= i < notes.len() && i < 96 && within_note(#[trigger] notes[i], qx, qy))
                ==> exists|times: nat| times >= 1 && shown == #[trigger] laid(mix, card, color, times)
            &&& (forall|i: int|
                0 <= i < notes.len() && i < 96 ==> !in_note(#[trigger] notes[i], qx, qy)) ==> shown
                == card
            &&& exists|times: nat| shown == #[trigger] laid(mix, card, color, times)
        }),
{
    card_pixels(image, mix, width, height, qx, qy);
    let count = if notes.len() < 96 {
        notes.len() as int
    } else {
        96
    };
    let times = note_pixels(
        card_drawn(image, mix, width, height),
        mix,
        width as int,
        height as int,
        notes,
        count,
        qx,
        qy,
    );
    assert(laid(
        mix,
        pixel(card_drawn(image, mix, width, height), width as int, qx, qy),
        Pixel { r: 120, g: 210, b: 190, a: 230 },
        times,
    ) == pixel(
        chip_drawn(image, mix, width, height, ContentView::Midi { notes }),
        width as int,
        qx,
        qy,
    ));
}

/// A piano roll without notes shows a line across the middle of the card.
pub proof fn empty_roll_is_a_line(
    image: Seq<u8>,
    mix: spec_fn(Pixel, Pixel) -> Pixel,
    width: usize,
    height: usize,
    qx: int,
    qy: int,
)
    requires
        inside(image, width as int, height as int, qx, qy),
        width >= 32,
        height >= 28,
    ensures
        ({
            let card = pixel(card_drawn(image, mix, width, height), width as int, qx, qy);
            pixel(
                chip_drawn(image, mix, width, height, ContentView::Midi { notes: seq![] }),
                width as int,
                qx,
                qy,
            ) == (if qy == 14 + (height - 28) / 2 && 14 <= qx <= width - 14 {
                mix(card, Pixel { r: 55, g: 72, b: 92, a: 120 })
            } else {
                card
            })
        }),
{
    card_pixels(image, mix, width, height, qx, qy);
    line_colors_its_row(
        card_drawn(image, mix, width, height),
        mix,
        width as int,
        height as int,
        14,
        width - 14,
        14 + (height - 28) / 2,
        Pixel { r: 55, g: 72, b: 92, a: 120 },
        qx,
        qy,
    );
}

// ---------------------------------------------------------------------------
// Waveforms
// ---------------------------------------------------------------------------

/// The column of a bar: the first one stands at the left margin, the last one at the right.
pub open spec fn column_of(width: int, count: int, index: int) -> int {
    16 + index * (if width > 32 {
        width - 32
    } else {
        1
    }) / (if count > 2 {
        count - 1
    } else {
        1
    })
}

/// Whether a row lies in a bar. A bar is at least one row high.
pub open spec fn row_in_bar(bar: BarRows, qy: int) -> bool {
    let low = if bar.one < bar.other {
        bar.one as int
    } else {
        bar.other as int
    };
    let high = if bar.one < bar.other {
        bar.other as int
    } else {
        bar.one as int
    };
    low <= qy < high || qy == low
}

/// Whether a bar or its glow lies over a pixel.
pub open spec fn bar_at(width: int, bars: Seq<BarRows>, i: int, qx: int, qy: int) -> bool {
    column_of(width, bars.len() as int, i) <= qx < column_of(width, bars.len() as int, i) + 3
        && row_in_bar(bars[i], qy)
}

proof fn column_is_right(width: int, count: int, index: int)
    requires
        width >= 32,
        0 <= index,
    ensures
        column_of(width, count, index) >= 16,
        bar_column(16, usable(width, 16), count, index) == column_of(width, count, index),
{
    let a = if width > 32 {
        width - 32
    } else {
        1
    };
    let b = if count > 2 {
        count - 1
    } else {
        1
    };
    assert(usable(width, 16) == a);
    assert(one_or_more(less(count, 1)) == b);
    assert(index * a / b >= 0) by (nonlinear_arith)
        requires
            index >= 0,
            a >= 1,
            b >= 1,
    ;
}

proof fn bar_pixels(
    image: Seq<u8>,
    mix: spec_fn(Pixel, Pixel) -> Pixel,
    width: int,
    height: int,
    bars: Seq<BarRows>,
    count: int,
    i: int,
    qx: int,
    qy: int,
)
    requires
        inside(image, width, height, qx, qy),
        0 <= count <= bars.len(),
        width >= 32,
    ensures
        bars_drawn(image, mix, width, height, bars, count).len() == image.len(),
        (forall|j: int| 0 <= j < count ==> !#[trigger] bar_at(width, bars, j, qx, qy)) ==> pixel(
            bars_drawn(image, mix, width, height, bars, count),
            width,
            qx,
            qy,
        ) == pixel(image, width, qx, qy),
        0 <= i < count && bar_at(width, bars, i, qx, qy) && (forall|j: int|
            i < j < count ==> !#[trigger] bar_at(width, bars, j, qx, qy)) ==> ({
            let below = pixel(bars_drawn(image, mix, width, height, bars, i), width, qx, qy);
            let glow = mix(below, Pixel { r: 168, g: 107, b: 234, a: 70 });
            pixel(bars_drawn(image, mix, width, height, bars, count), width, qx, qy) == (if qx
                < column_of(width, bars.len() as int, i) + 2 {
                mix(glow, Pixel { r: 169, g: 222, b: 255, a: 235 })
            } else {
                glow
            })
        }),
    decreases count,
{
    if count > 0 {
        bar_pixels(image, mix, width, height, bars, count - 1, i, qx, qy);
        let before = bars_drawn(image, mix, width, height, bars, count - 1);
        let bar = bars[count - 1];
        let x = column_of(width, bars.len() as int, count - 1);
        column_is_right(width, bars.len() as int, count - 1);
        let top = if bar.one < bar.other {
            bar.one as int
        } else {
            bar.other as int
        };
        let h = if bar.one < bar.other {
            bar.other - bar.one
        } else if bar.other < bar.one {
            bar.one - bar.other
        } else {
            1
        };
        let glow = bar_filled(
            before,
            mix,
            width,
            height,
            x,
            top,
            3,
            h,
            Pixel { r: 168, g: 107, b: 234, a: 70 },
        );
        bar_colors_its_rectangle(
            before,
            mix,
            width,
            height,
            x,
            top,
            3,
            h,
            Pixel { r: 168, g: 107, b: 234, a: 70 },
            qx,
            qy,
        );
        bar_colors_its_rectangle(
            glow,
            mix,
            width,
            height,
            x,
            top,
            2,
            h,
            Pixel { r: 169, g: 222, b: 255, a: 235 },
            qx,
            qy,
        );
        assert(bar_top(bar) == top);
        assert(bar_height(bar) == h);
        assert(bars_drawn(image, mix, width, height, bars, count) == bar_filled(
            glow,
            mix,
            width,
            height,
            x,
            top,
            2,
            h,
            Pixel { r: 169, g: 222, b: 255, a: 235 },
        ));
        assert(row_in_bar(bar, qy) == (top <= qy < top + h));
        let here = bar_at(width, bars, count - 1, qx, qy);
        assert(here == (x <= qx < x + 3 && top <= qy < top + h));
        let old_pixel = pixel(before, width, qx, qy);
        let new_pixel = pixel(
            bars_drawn(image, mix, width, height, bars, count),
            width,
            qx,
            qy,
        );
        if here {
            let lit = mix(old_pixel, Pixel { r: 168, g: 107, b: 234, a: 70 });
            assert(pixel(glow, width, qx, qy) == lit);
            assert(new_pixel == (if qx < x + 2 {
                mix(lit, Pixel { r: 169, g: 222, b: 255, a: 235 })
            } else {
                lit
            }));
        } else {
            assert(pixel(glow, width, qx, qy) == old_pixel);
            assert(new_pixel == old_pixel);
        }
    }
}

/// A waveform shows each bucket as a bar of two columns with a glow of three, from one of
/// its rows to the other, at its place across the chip; where bars overlap, the later one
/// lies on top. Beside the bars there is the card with a line across its middle.
pub proof fn buckets_are_shown_as_bars(
    image: Seq<u8>,
    mix: spec_fn(Pixel, Pixel) -> Pixel,
    width: usize,
    height: usize,
    bars: Seq<BarRows>,
    i: int,
    qx: int,
    qy: int,
)
    requires
        inside(image, width as int, height as int, qx, qy),
        width >= 32,
        height >= 24,
    ensures
        ({
            let shown = pixel(
                chip_drawn(image, mix, width, height, ContentView::Waveform { bars }),
                width as int,
                qx,
                qy,
            );
            let card = pixel(card_drawn(image, mix, width, height), width as int, qx, qy);
            let ground = if qy == (height - 2) / 2 && 16 <= qx <= width - 16 {
                mix(card, Pixel { r: 75, g: 98, b: 124, a: 160 })
            } else {
                card
            };
            &&& (forall|j: int|
                0 <= j < bars.len() ==> !#[trigger] bar_at(width as int, bars, j, qx, qy)) ==> shown
                == ground
            &&& 0 <= i < bars.len() && bar_at(width as int, bars, i, qx, qy) && (forall|j: int|
                i < j < bars.len() ==> !#[trigger] bar_at(width as int, bars, j, qx, qy))
                ==> exists|below: Pixel|
                shown == (if qx < column_of(width as int, bars.len() as int, i) + 2 {
                    mix(
                        #[trigger] mix(below, Pixel { r: 168, g: 107, b: 234, a: 70 }),
                        Pixel { r: 169, g: 222, b: 255, a: 235 },
                    )
                } else {
                    mix(below, Pixel { r: 168, g: 107, b: 234, a: 70 })
                })
        }),
{
    card_pixels(image, mix, width, height, qx, qy);
    let card = card_drawn(image, mix, width, height);
    let w = width as int;
    let h = height as int;
    let color = Pixel { r: 75, g: 98, b: 124, a: 160 };
    let line = line_drawn(card, mix, w, h, 16, w - 16, (16 + (h - 18)) / 2, color);
    line_colors_its_row(card, mix, w, h, 16, w - 16, (16 + (h - 18)) / 2, color, qx, qy);
    bar_pixels(line, mix, w, h, bars, bars.len() as int, i, qx, qy);
    if 0 <= i < bars.len() {
        let below = pixel(bars_drawn(line, mix, w, h, bars, i), w, qx, qy);
        assert(mix(below, Pixel { r: 168, g: 107, b: 234, a: 70 }) == mix(
            below,
            Pixel { r: 168, g: 107, b: 234, a: 70 },
        ));
    }
}

/// The bars of a waveform are spread over the whole chip, in order: the first one stands at
/// the left margin, the last one at the right.
pub proof fn bars_are_spread_evenly(width: int, count: int, i: int, j: int)
    requires
        width > 32,
        count > 1,
        0 <= i <= j < count,
    ensures
        column_of(width, count, 0) == 16,
        column_of(width, count, count - 1) == width - 16,
        column_of(width, count, i) <= column_of(width, count, j),
{
    let a = width - 32;
    let b = count - 1;
    assert((count - 1) * a / b == a) by (nonlinear_arith)
        requires
            b == count - 1,
            b >= 1,
            a >= 1,
    ;
    assert(i * a <= j * a) by (nonlinear_arith)
        requires
            i <= j,
            a >= 1,
    ;
    vstd::arithmetic::div_mod::lemma_div_is_ordered(i * a, j * a, b);
}

// ---------------------------------------------------------------------------
// Spectral cells
// ---------------------------------------------------------------------------

/// The color of the cell that a pixel of the panel shows: low frequencies at the bottom.
pub open spec fn cell_at(
    columns: int,
    rows: int,
    colors: Seq<Pixel>,
    blank: Pixel,
    panel_w: int,
    panel_h: int,
    x: int,
    y: int,
) -> Pixel {
    let column = x * columns / panel_w;
    let row = rows - 1 - y * rows / panel_h;
    if column * rows + row < colors.len() {
        colors[column * rows + row]
    } else {
        blank
    }
}

proof fn row_of_cells(
    image: Seq<u8>,
    mix: spec_fn(Pixel, Pixel) -> Pixel,
    width: int,
    height: int,
    columns: int,
    rows: int,
    colors: Seq<Pixel>,
    blank: Pixel,
    margin: int,
    panel_w: int,
    panel_h: int,
    y: int,
    x1: int,
    qx: int,
    qy: int,
)
    requires
        inside(image, width, height, qx, qy),
        columns >= 1,
        rows >= 1,
        margin >= 0,
        panel_w >= 1,
        panel_h >= 1,
        0 <= y < panel_h,
        0 <= x1 <= panel_w,
    ensures
        ({
            let after = cell_row_drawn(
                image,
                mix,
                width,
                columns,
                rows,
                colors,
                blank,
                margin,
                panel_w,
                panel_h,
                y,
                x1,
            );
            &&& after.len() == image.len()
            &&& pixel(after, width, qx, qy) == (if qy == margin + y && margin <= qx < margin + x1 {
                mix(
                    pixel(image, width, qx, qy),
                    cell_at(columns, rows, colors, blank, panel_w, panel_h, qx - margin, y),
                )
            } else {
                pixel(image, width, qx, qy)
            })
        }),
    decreases x1,
{
    if x1 > 0 {
        row_of_cells(
            image,
            mix,
            width,
            height,
            columns,
            rows,
            colors,
            blank,
            margin,
            panel_w,
            panel_h,
            y,
            x1 - 1,
            qx,
            qy,
        );
        let before = cell_row_drawn(
            image,
            mix,
            width,
            columns,
            rows,
            colors,
            blank,
            margin,
            panel_w,
            panel_h,
            y,
            x1 - 1,
        );
        assert(0 <= y * rows / panel_h <= rows - 1) by (nonlinear_arith)
            requires
                0 <= y < panel_h,
                rows >= 1,
        ;
        one_pixel_is_dabbed(
            before,
            mix,
            width,
            height,
            margin + x1 - 1,
            margin + y,
            cell_at(columns, rows, colors, blank, panel_w, panel_h, x1 - 1, y),
            qx,
            qy,
        );
    }
}

proof fn rows_of_cells(
    image: Seq<u8>,
    mix: spec_fn(Pixel, Pixel) -> Pixel,
    width: int,
    height: int,
    columns: int,
    rows: int,
    colors: Seq<Pixel>,
    blank: Pixel,
    margin: int,
    panel_w: int,
    panel_h: int,
    y1: int,
    qx: int,
    qy: int,
)
    requires
        inside(image, width, height, qx, qy),
        columns >= 1,
        rows >= 1,
        margin >= 0,
        panel_w >= 1,
        panel_h >= 1,
        0 <= y1 <= panel_h,
    ensures
        ({
            let after = cells_drawn(
                image,
                mix,
                width,
                columns,
                rows,
                colors,
                blank,
                margin,
                panel_w,
                panel_h,
                y1,
            );
            &&& after.len() == image.len()
            &&& pixel(after, width, qx, qy) == (if margin <= qy < margin + y1 && margin <= qx < margin
                + panel_w {
                mix(
                    pixel(image, width, qx, qy),
                    cell_at(
                        columns,
                        rows,
                        colors,
                        blank,
                        panel_w,
                        panel_h,
                        qx - margin,
                        qy - margin,
                    ),
                )
            } else {
                pixel(image, width, qx, qy)
            })
        }),
    decreases y1,
{
    if y1 > 0 {
        rows_of_cells(
            image,
            mix,
            width,
            height,
            columns,
            rows,
            colors,
            blank,
            margin,
            panel_w,
            panel_h,
            y1 - 1,
            qx,
            qy,
        );
        let before = cells_drawn(
            image,
            mix,
            width,
            columns,
            rows,
            colors,
            blank,
            margin,
            panel_w,
            panel_h,
            y1 - 1,
        );
        row_of_cells(
            before,
            mix,
            width,
            height,
            columns,
            rows,
            colors,
            blank,
            margin,
            panel_w,
            panel_h,
            y1 - 1,
            panel_w,
            qx,
            qy,
        );
    }
}

/// A spectral preview lays the color of its cell once over each pixel within the margin,
/// and draws nothing else. Without cells it draws nothing.
pub proof fn cells_fill_the_panel(
    image: Seq<u8>,
    mix: spec_fn(Pixel, Pixel) -> Pixel,
    width: int,
    height: int,
    margin: int,
    columns: int,
    rows: int,
    colors: Seq<Pixel>,
    blank: Pixel,
    qx: int,
    qy: int,
)
    requires
        inside(image, width, height, qx, qy),
        0 <= margin,
        2 * margin < width,
        2 * margin < height,
        0 <= columns,
        0 <= rows,
    ensures
        ({
            let after = spectral_drawn(
                image,
                mix,
                width,
                height,
                margin,
                columns,
                rows,
                colors,
                blank,
            );
            &&& after.len() == image.len()
            &&& pixel(after, width, qx, qy) == (if columns > 0 && rows > 0 && colors.len() > 0
                && margin <= qx < width - margin && margin <= qy < height - margin {
                mix(
                    pixel(image, width, qx, qy),
                    cell_at(
                        columns,
                        rows,
                        colors,
                        blank,
                        width - 2 * margin,
                        height - 2 * margin,
                        qx - margin,
                        qy - margin,
                    ),
                )
            } else {
                pixel(image, width, qx, qy)
            })
        }),
{
    if columns > 0 && rows > 0 && colors.len() > 0 {
        rows_of_cells(
            image,
            mix,
            width,
            height,
            columns,
            rows,
            colors,
            blank,
            margin,
            width - 2 * margin,
            height - 2 * margin,
            height - 2 * margin,
            qx,
            qy,
        );
    }
}

/// A chip shows the cells of a spectral preview on the card, 14 pixels from each side.
pub proof fn cells_are_shown_on_the_card(
    image: Seq<u8>,
    mix: spec_fn(Pixel, Pixel) -> Pixel,
    width: usize,
    height: usize,
    columns: usize,
    rows: usize,
    colors: Seq<Pixel>,
    blank: Pixel,
    qx: int,
    qy: int,
)
    requires
        inside(image, width as int, height as int, qx, qy),
        width >= 32,
        height > 28,
    ensures
        ({
            let shown = pixel(
                chip_drawn(
                    image,
                    mix,
                    width,
                    height,
                    ContentView::Spectral { columns, rows, colors, blank },
                ),
                width as int,
                qx,
                qy,
            );
            let card = pixel(card_drawn(image, mix, width, height), width as int, qx, qy);
            shown == (if columns > 0 && rows > 0 && colors.len() > 0 && 14 <= qx < width - 14 && 14
                <= qy < height - 14 {
                mix(
                    card,
                    cell_at(
                        columns as int,
                        rows as int,
                        colors,
                        blank,
                        width - 28,
                        height - 28,
                        qx - 14,
                        qy - 14,
                    ),
                )
            } else {
                card
            })
        }),
{
    card_pixels(image, mix, width, height, qx, qy);
    cells_fill_the_panel(
        card_drawn(image, mix, width, height),
        mix,
        width as int,
        height as int,
        14,
        columns as int,
        rows as int,
        colors,
        blank,
        qx,
        qy,
    );
}

/// The lowest row of cells is shown at the bottom of the panel and the highest one at the
/// top; the first column is shown at the left.
pub proof fn low_frequencies_are_at_the_bottom(
    columns: int,
    rows: int,
    colors: Seq<Pixel>,
    blank: Pixel,
    panel_w: int,
    panel_h: int,
)
    requires
        columns >= 1,
        rows >= 1,
        colors.len() == columns * rows,
        panel_w >= 1,
        panel_h >= rows,
    ensures
        cell_at(columns, rows, colors, blank, panel_w, panel_h, 0, panel_h - 1) == colors[0],
        cell_at(columns, rows, colors, blank, panel_w, panel_h, 0, 0) == colors[rows - 1],
{
    assert(0 * columns / panel_w == 0) by (nonlinear_arith)
        requires
            panel_w >= 1,
    ;
    assert(0 * rows / panel_h == 0) by (nonlinear_arith)
        requires
            panel_h >= 1,
    ;
    assert((panel_h - 1) * rows / panel_h == rows - 1) by (nonlinear_arith)
        requires
            panel_h >= rows,
            rows >= 1,
    ;
    assert(columns * rows >= rows) by (nonlinear_arith)
        requires
            columns >= 1,
            rows >= 1,
    ;
    assert(0 * rows == 0);
}

} // verus!
