//! The drag icon of native Wayland drags.
//!
//! The icon is a flat panel with the preview in it, drawn without blending.

use vstd::prelude::*;

use crate::pixels::{in_bgra, rgba_to_bgra};
use crate::preview_laws::{
    bar_colors_its_rectangle, cell_at, cells_fill_the_panel, inside, pixel, row_in_bar,
};
use crate::preview_render::{
    at_least_one, bar_column, bar_filled, bar_height, bar_top, clear_image, color, draw_spectral,
    follows, lays_any, less, minus, one_or_more, spectral_drawn, transparent, usable, vbar, BarRows,
    ChipContent, ContentView, Pixel,
};

verus! {

/// Width of the icon in pixels.
pub const ICON_WIDTH: usize = 192;

/// Height of the icon in pixels.
pub const ICON_HEIGHT: usize = 88;

/// The space beside the bars of a waveform.
pub const ICON_BAR_MARGIN: usize = 12;

/// The space around spectral cells.
pub const ICON_CELL_MARGIN: usize = 10;

/// An image after the first `count` bars were drawn.
pub open spec fn icon_bars_drawn(
    image: Seq<u8>,
    blend: spec_fn(Pixel, Pixel) -> Pixel,
    width: int,
    height: int,
    bars: Seq<BarRows>,
    count: int,
) -> Seq<u8>
    decreases count,
{
    if count <= 0 {
        image
    } else {
        let bar = bars[count - 1];
        bar_filled(
            icon_bars_drawn(image, blend, width, height, bars, count - 1),
            blend,
            width,
            height,
            bar_column(
                ICON_BAR_MARGIN as int,
                usable(width, ICON_BAR_MARGIN as int),
                bars.len() as int,
                count - 1,
            ),
            bar_top(bar),
            2,
            bar_height(bar),
            color(104, 229, 196, 245),
        )
    }
}

/// An image after an icon was drawn: the frame, the panel, and the preview in it. Notes
/// are not drawn.
pub open spec fn icon_drawn(
    image: Seq<u8>,
    blend: spec_fn(Pixel, Pixel) -> Pixel,
    width: int,
    height: int,
    content: ContentView,
) -> Seq<u8> {
    let frame = bar_filled(
        image,
        blend,
        width,
        height,
        0,
        0,
        width,
        height,
        color(22, 24, 31, 230),
    );
    let panel = bar_filled(
        frame,
        blend,
        width,
        height,
        1,
        1,
        width - 2,
        height - 2,
        color(34, 37, 46, 238),
    );
    match content {
        ContentView::Waveform { bars } => {
            let line = bar_filled(
                panel,
                blend,
                width,
                height,
                12,
                (12 + less(height, 12)) / 2,
                less(width, 12) - 12,
                1,
                color(86, 93, 111, 170),
            );
            icon_bars_drawn(line, blend, width, height, bars, bars.len() as int)
        },
        ContentView::Spectral { columns, rows, colors, blank } => spectral_drawn(
            panel,
            blend,
            width,
            height,
            ICON_CELL_MARGIN as int,
            columns as int,
            rows as int,
            colors,
            blank,
        ),
        ContentView::Midi { notes } => panel,
    }
}

fn draw_icon_bars<B: Fn(Pixel, Pixel) -> Pixel>(
    image: &mut Vec<u8>,
    width: usize,
    height: usize,
    bars: &Vec<BarRows>,
    blend: &B,
)
    requires
        lays_any(*blend),
        height * width * 4 <= usize::MAX,
        less(bars@.len() as int, 1) * usable(width as int, ICON_BAR_MARGIN as int) <= usize::MAX,
        width >= 32,
    ensures
        forall|mix: spec_fn(Pixel, Pixel) -> Pixel| #[trigger]
            follows(*blend, mix) ==> final(image)@ == icon_bars_drawn(
                old(image)@,
                mix,
                width as int,
                height as int,
                bars@,
                bars@.len() as int,
            ),
        final(image)@.len() == old(image)@.len(),
{
    let usable: usize = at_least_one(minus(width, 2 * ICON_BAR_MARGIN));
    let count: usize = bars.len();
    let len: usize = at_least_one(minus(count, 1));
    for i in 0..count
        invariant
            lays_any(*blend),
            height * width * 4 <= usize::MAX,
            count == bars@.len(),
            less(count as int, 1) * usable <= usize::MAX,
            usable == crate::preview_render::usable(width as int, ICON_BAR_MARGIN as int),
            ICON_BAR_MARGIN + usable <= usize::MAX,
            len == one_or_more(less(count as int, 1)),
            image@.len() == old(image)@.len(),
            forall|mix: spec_fn(Pixel, Pixel) -> Pixel| #[trigger]
                follows(*blend, mix) ==> image@ == icon_bars_drawn(
                    old(image)@,
                    mix,
                    width as int,
                    height as int,
                    bars@,
                    i as int,
                ),
    {
        assert(i * usable <= less(count as int, 1) * usable) by (nonlinear_arith)
            requires
                0 <= i <= less(count as int, 1),
                0 <= usable,
        ;
        let offset: usize = i * usable / len;
        assert(offset <= usable) by (nonlinear_arith)
            requires
                offset == (i * usable) / (len as int),
                0 <= i <= len,
                len >= 1,
                usable >= 0,
        ;
        let bar: BarRows = bars[i];
        let y: usize = if bar.one < bar.other {
            bar.one
        } else {
            bar.other
        };
        let h: usize = at_least_one(
            if bar.one < bar.other {
                bar.other - bar.one
            } else {
                bar.one - bar.other
            },
        );
        vbar(
            image,
            width,
            height,
            ICON_BAR_MARGIN + offset,
            y,
            2,
            h,
            Pixel { r: 104, g: 229, b: 196, a: 245 },
            blend,
        );
    }
}

fn draw_icon<B: Fn(Pixel, Pixel) -> Pixel>(
    image: &mut Vec<u8>,
    width: usize,
    height: usize,
    content: &ChipContent,
    blend: &B,
)
    requires
        lays_any(*blend),
        height * width * 4 <= usize::MAX,
        width >= 32,
        height >= 24,
        content@.scales_to(
            width as int,
            height as int,
            ICON_BAR_MARGIN as int,
            ICON_CELL_MARGIN as int,
        ),
    ensures
        forall|mix: spec_fn(Pixel, Pixel) -> Pixel| #[trigger]
            follows(*blend, mix) ==> final(image)@ == icon_drawn(
                old(image)@,
                mix,
                width as int,
                height as int,
                content@,
            ),
        final(image)@.len() == old(image)@.len(),
{
    vbar(
        image,
        width,
        height,
        0,
        0,
        width,
        height,
        Pixel { r: 22, g: 24, b: 31, a: 230 },
        blend,
    );
    vbar(
        image,
        width,
        height,
        1,
        1,
        width - 2,
        height - 2,
        Pixel { r: 34, g: 37, b: 46, a: 238 },
        blend,
    );
    match content {
        ChipContent::Waveform { bars } => {
            let right: usize = minus(width, 12);
            let center: usize = (12 + minus(height, 12)) / 2;
            vbar(
                image,
                width,
                height,
                12,
                center,
                right - 12,
                1,
                Pixel { r: 86, g: 93, b: 111, a: 170 },
                blend,
            );
            draw_icon_bars(image, width, height, bars, blend);
        },
        ChipContent::Spectral { columns, rows, colors, blank } => {
            draw_spectral(
                image,
                width,
                height,
                ICON_CELL_MARGIN,
                *columns,
                *rows,
                colors,
                *blank,
                blend,
            );
        },
        ChipContent::Midi { .. } => {},
    }
}

/// Rasterize preview metadata into the drag icon, in BGRA order.
#[must_use]
pub fn render_drag_icon(content: &ChipContent) -> (bgra: Vec<u8>)
    requires
        content@.scales_to(
            ICON_WIDTH as int,
            ICON_HEIGHT as int,
            ICON_BAR_MARGIN as int,
            ICON_CELL_MARGIN as int,
        ),
    ensures
        bgra@ == in_bgra(
            icon_drawn(
                transparent((ICON_WIDTH * ICON_HEIGHT * 4) as nat),
                |below: Pixel, color: Pixel| color,
                ICON_WIDTH as int,
                ICON_HEIGHT as int,
                content@,
            ),
        ),
        bgra@.len() == ICON_WIDTH * ICON_HEIGHT * 4,
{
    let overwrite = |below: Pixel, color: Pixel| -> (pixel: Pixel)
        ensures
            pixel == color,
        { color };
    let mut image = clear_image(ICON_WIDTH * ICON_HEIGHT * 4);
    let ghost mix = |below: Pixel, color: Pixel| color;
    draw_icon(&mut image, ICON_WIDTH, ICON_HEIGHT, content, &overwrite);
    assert(follows(overwrite, mix));
    rgba_to_bgra(image.as_slice())
}

// ---------------------------------------------------------------------------
// What the icon shows
// ---------------------------------------------------------------------------

/// The column of a bar: the first one stands at the left margin, the last one at the right.
pub open spec fn icon_column(width: int, count: int, index: int) -> int {
    12 + index * (if width > 24 {
        width - 24
    } else {
        1
    }) / (if count > 2 {
        count - 1
    } else {
        1
    })
}

/// Whether a bar lies over a pixel.
pub open spec fn icon_bar_at(width: int, bars: Seq<BarRows>, i: int, qx: int, qy: int) -> bool {
    icon_column(width, bars.len() as int, i) <= qx < icon_column(width, bars.len() as int, i) + 2
        && row_in_bar(bars[i], qy)
}

proof fn icon_column_is_right(width: int, count: int, index: int)
    requires
        width >= 24,
        0 <= index,
    ensures
        icon_column(width, count, index) >= 12,
        bar_column(12, usable(width, 12), count, index) == icon_column(width, count, index),
{
    let a = if width > 24 {
        width - 24
    } else {
        1
    };
    let b = if count > 2 {
        count - 1
    } else {
        1
    };
    assert(usable(width, 12) == a);
    assert(one_or_more(less(count, 1)) == b);
    assert(index * a / b >= 0) by (nonlinear_arith)
        requires
            index >= 0,
            a >= 1,
            b >= 1,
    ;
}

proof fn icon_bar_pixels(
    image: Seq<u8>,
    mix: spec_fn(Pixel, Pixel) -> Pixel,
    width: int,
    height: int,
    bars: Seq<BarRows>,
    count: int,
    qx: int,
    qy: int,
)
    requires
        inside(image, width, height, qx, qy),
        0 <= count <= bars.len(),
        width >= 32,
        forall|below: Pixel, color: Pixel| #[trigger] mix(below, color) == color,
    ensures
        icon_bars_drawn(image, mix, width, height, bars, count).len() == image.len(),
        (exists|j: int| 0 <= j < count && #[trigger] icon_bar_at(width, bars, j, qx, qy)) ==> pixel(
            icon_bars_drawn(image, mix, width, height, bars, count),
            width,
            qx,
            qy,
        ) == (Pixel { r: 104, g: 229, b: 196, a: 245 }),
        !(exists|j: int| 0 <= j < count && #[trigger] icon_bar_at(width, bars, j, qx, qy))
            ==> pixel(
            icon_bars_drawn(image, mix, width, height, bars, count),
            width,
            qx,
            qy,
        ) == pixel(image, width, qx, qy),
    decreases count,
{
    if count > 0 {
        icon_bar_pixels(image, mix, width, height, bars, count - 1, qx, qy);
        let before = icon_bars_drawn(image, mix, width, height, bars, count - 1);
        let bar = bars[count - 1];
        let x = icon_column(width, bars.len() as int, count - 1);
        icon_column_is_right(width, bars.len() as int, count - 1);
        let color = Pixel { r: 104, g: 229, b: 196, a: 245 };
        bar_colors_its_rectangle(
            before,
            mix,
            width,
            height,
            x,
            bar_top(bar),
            2,
            bar_height(bar),
            color,
            qx,
            qy,
        );
        assert(row_in_bar(bar, qy) == (bar_top(bar) <= qy < bar_top(bar) + bar_height(bar)));
        let here = icon_bar_at(width, bars, count - 1, qx, qy);
        assert(here == (x <= qx < x + 2 && row_in_bar(bar, qy)));
        assert(icon_bars_drawn(image, mix, width, height, bars, count) == bar_filled(
            before,
            mix,
            width,
            height,
            x,
            bar_top(bar),
            2,
            bar_height(bar),
            color,
        ));
        if here {
            assert(mix(pixel(before, width, qx, qy), color) == color);
        }
    }
}

/// The icon is a frame of one pixel around a panel. On the panel a waveform shows a line
/// across the middle and a bar of two columns for each bucket, a spectral preview shows its
/// cells ten pixels from each side, and notes are not shown.
pub proof fn icon_shows_the_preview(
    image: Seq<u8>,
    mix: spec_fn(Pixel, Pixel) -> Pixel,
    width: int,
    height: int,
    content: ContentView,
    qx: int,
    qy: int,
)
    requires
        inside(image, width, height, qx, qy),
        width >= 32,
        height >= 24,
        forall|below: Pixel, color: Pixel| #[trigger] mix(below, color) == color,
    ensures
        ({
            let shown = pixel(icon_drawn(image, mix, width, height, content), width, qx, qy);
            let ground = if 1 <= qx < width - 1 && 1 <= qy < height - 1 {
                Pixel { r: 34, g: 37, b: 46, a: 238 }
            } else {
                Pixel { r: 22, g: 24, b: 31, a: 230 }
            };
            match content {
                ContentView::Waveform { bars } => {
                    &&& (exists|j: int|
                        0 <= j < bars.len() && #[trigger] icon_bar_at(width, bars, j, qx, qy))
                        ==> shown == (Pixel { r: 104, g: 229, b: 196, a: 245 })
                    &&& !(exists|j: int|
                        0 <= j < bars.len() && #[trigger] icon_bar_at(width, bars, j, qx, qy))
                        ==> shown == (if qy == height / 2 && 12 <= qx < width - 12 {
                        Pixel { r: 86, g: 93, b: 111, a: 170 }
                    } else {
                        ground
                    })
                },
                ContentView::Spectral { columns, rows, colors, blank } => shown == (if columns > 0
                    && rows > 0 && colors.len() > 0 && 10 <= qx < width - 10 && 10 <= qy < height
                    - 10 {
                    cell_at(
                        columns as int,
                        rows as int,
                        colors,
                        blank,
                        width - 20,
                        height - 20,
                        qx - 10,
                        qy - 10,
                    )
                } else {
                    ground
                }),
                ContentView::Midi { notes } => shown == ground,
            }
        }),
{
    let c1 = Pixel { r: 22, g: 24, b: 31, a: 230 };
    let c2 = Pixel { r: 34, g: 37, b: 46, a: 238 };
    let c3 = Pixel { r: 86, g: 93, b: 111, a: 170 };
    let frame = bar_filled(image, mix, width, height, 0, 0, width, height, c1);
    bar_colors_its_rectangle(image, mix, width, height, 0, 0, width, height, c1, qx, qy);
    let panel = bar_filled(frame, mix, width, height, 1, 1, width - 2, height - 2, c2);
    bar_colors_its_rectangle(
        frame,
        mix,
        width,
        height,
        1,
        1,
        width - 2,
        height - 2,
        c2,
        qx,
        qy,
    );
    assert(mix(pixel(image, width, qx, qy), c1) == c1);
    assert(mix(pixel(frame, width, qx, qy), c2) == c2);
    match content {
        ContentView::Waveform { bars } => {
            let middle = (12 + (height - 12)) / 2;
            let line = bar_filled(
                panel,
                mix,
                width,
                height,
                12,
                middle,
                width - 12 - 12,
                1,
                c3,
            );
            bar_colors_its_rectangle(
                panel,
                mix,
                width,
                height,
                12,
                middle,
                width - 12 - 12,
                1,
                c3,
                qx,
                qy,
            );
            assert(mix(pixel(panel, width, qx, qy), c3) == c3);
            icon_bar_pixels(line, mix, width, height, bars, bars.len() as int, qx, qy);
        },
        ContentView::Spectral { columns, rows, colors, blank } => {
            cells_fill_the_panel(
                panel,
                mix,
                width,
                height,
                10,
                columns as int,
                rows as int,
                colors,
                blank,
                qx,
                qy,
            );
            let cell = cell_at(
                columns as int,
                rows as int,
                colors,
                blank,
                width - 20,
                height - 20,
                qx - 10,
                qy - 10,
            );
            assert(mix(pixel(panel, width, qx, qy), cell) == cell);
        },
        ContentView::Midi { notes } => {},
    }
}

} // verus!
