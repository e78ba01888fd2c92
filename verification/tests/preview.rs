use audio_plugin_dnd::icon::{render_drag_icon, ICON_HEIGHT, ICON_WIDTH};
use audio_plugin_dnd::pixels::{pack_x11_pixels, rgba_to_argb8888_premul, rgba_to_bgra};
use audio_plugin_dnd::preview_render::{
    render_drag_chip, render_drag_chip_sized, BarRows, ChipContent, DragChipImage, NoteRect, Pixel,
    CHIP_HEIGHT, CHIP_WIDTH,
};

fn source_over(below: Pixel, color: Pixel) -> Pixel {
    let src_a = color.a as f32 / 255.0;
    let dst_a = below.a as f32 / 255.0;
    let out_a = src_a + dst_a * (1.0 - src_a);
    if out_a <= 0.0 {
        return below;
    }
    let mix = |s: u8, d: u8| {
        ((s as f32 * src_a + d as f32 * dst_a * (1.0 - src_a)) / out_a).round() as u8
    };
    Pixel {
        r: mix(color.r, below.r),
        g: mix(color.g, below.g),
        b: mix(color.b, below.b),
        a: (out_a * 255.0).round() as u8,
    }
}

fn waveform(buckets: &[(f32, f32)], height: usize) -> ChipContent {
    let top = 16_usize;
    let bottom = height - 18;
    let center = (top + bottom) / 2;
    let amp = (bottom - top) as f32 * 0.42;
    let row = |v: f32| {
        (center as f32 - v.clamp(-1.0, 1.0) * amp)
            .round()
            .clamp(top as f32, bottom as f32) as usize
    };
    ChipContent::Waveform {
        bars: buckets
            .iter()
            .map(|&(min, max)| BarRows {
                one: row(max),
                other: row(min),
            })
            .collect(),
    }
}

fn spectral_color(value: f32) -> Pixel {
    let cold = [45.0, 54.0, 82.0];
    let mid = [49.0, 180.0, 178.0];
    let hot = [247.0, 214.0, 112.0];
    let (a, b, t) = if value < 0.55 {
        (cold, mid, value / 0.55)
    } else {
        (mid, hot, (value - 0.55) / 0.45)
    };
    let channel = |i: usize| (a[i] + (b[i] - a[i]) * t as f64).round() as u8;
    Pixel {
        r: channel(0),
        g: channel(1),
        b: channel(2),
        a: 245,
    }
}

fn note(start: f32, end: f32, pitch: f32, width: usize, height: usize) -> NoteRect {
    let usable_w = (width - 28) as f32;
    let usable_h = (height - 28) as f32;
    let note_h = (usable_h / 18.0).clamp(3.0, 7.0);
    NoteRect {
        x: (14.0 + start * usable_w).round() as usize,
        y: (14.0 + (1.0 - pitch) * (usable_h - note_h)).round() as usize,
        w: ((end - start) * usable_w).max(2.0).round() as usize,
        h: note_h.round() as usize,
    }
}

fn pixel(image: &DragChipImage, x: usize, y: usize) -> [u8; 4] {
    let i = (y * image.width + x) * 4;
    [
        image.rgba[i],
        image.rgba[i + 1],
        image.rgba[i + 2],
        image.rgba[i + 3],
    ]
}

#[test]
fn waveform_chip_has_non_transparent_pixels() {
    let buckets: Vec<(f32, f32)> = (0..64)
        .map(|i| {
            let t = i as f32 / 63.0;
            (-t * 0.6, t * 0.8)
        })
        .collect();
    let image = render_drag_chip(&waveform(&buckets, CHIP_HEIGHT), &source_over);
    assert_eq!(image.width, CHIP_WIDTH);
    assert_eq!(image.height, CHIP_HEIGHT);
    let opaque = image.rgba.chunks_exact(4).filter(|p| p[3] > 40).count();
    assert!(
        opaque > 500,
        "expected filled card, got {opaque} opaque pixels"
    );
}

#[test]
fn midi_chip_renders_real_notes() {
    let image = render_drag_chip(
        &ChipContent::Midi {
            notes: vec![
                note(0.1, 0.4, 0.2, CHIP_WIDTH, CHIP_HEIGHT),
                note(0.5, 0.8, 0.8, CHIP_WIDTH, CHIP_HEIGHT),
            ],
        },
        &source_over,
    );
    let opaque = image.rgba.chunks_exact(4).filter(|p| p[3] > 40).count();
    assert!(opaque > 500);
}

#[test]
fn spectral_uses_column_major_layout() {
    // One hot cell at column 0, high row (top of spectrogram after Y flip).
    let columns = 4;
    let rows = 4;
    let mut energy = vec![0.0_f32; columns * rows];
    energy[0 * rows + (rows - 1)] = 1.0; // col0, high freq
    let image = render_drag_chip(
        &ChipContent::Spectral {
            columns,
            rows,
            colors: energy.iter().map(|&v| spectral_color(v)).collect(),
            blank: spectral_color(0.0),
        },
        &source_over,
    );
    // Sample near top-left of inner panel — should be hot (gold-ish), not cold.
    let left = 14;
    let top = 14;
    let i = ((top + 2) * image.width + (left + 2)) * 4;
    let r = image.rgba[i];
    let g = image.rgba[i + 1];
    let b = image.rgba[i + 2];
    assert!(
        r > 100 || g > 100,
        "expected hot spectral color at high-freq col0, got rgb({r},{g},{b})"
    );
}

#[test]
fn notes_stand_out_from_the_panel() {
    let plain = render_drag_chip(&ChipContent::Midi { notes: Vec::new() }, &source_over);
    let rect = NoteRect {
        x: 40,
        y: 30,
        w: 20,
        h: 5,
    };
    let image = render_drag_chip(&ChipContent::Midi { notes: vec![rect] }, &source_over);
    assert_ne!(pixel(&image, 50, 32), pixel(&plain, 50, 32));
    assert_eq!(pixel(&image, 50, 60), pixel(&plain, 50, 60));
    // Corners of a note are cut.
    assert_eq!(pixel(&image, 40, 30), pixel(&plain, 40, 30));
    assert_ne!(pixel(&image, 41, 32), pixel(&plain, 41, 32));
}

#[test]
fn only_the_first_notes_are_drawn() {
    let far = NoteRect {
        x: 100,
        y: 20,
        w: 30,
        h: 5,
    };
    let near = NoteRect {
        x: 20,
        y: 50,
        w: 10,
        h: 5,
    };
    let mut notes = vec![near; 96];
    notes.push(far);
    let image = render_drag_chip(&ChipContent::Midi { notes }, &source_over);
    let mut drawn = vec![near; 95];
    drawn.push(far);
    let other = render_drag_chip(&ChipContent::Midi { notes: drawn }, &source_over);
    assert_eq!(pixel(&image, 110, 22), [13, 19, 30, 255]);
    assert_ne!(pixel(&other, 110, 22), [13, 19, 30, 255]);
}

#[test]
fn empty_previews_show_the_card() {
    let overwrite = |_below: Pixel, color: Pixel| color;
    let spectral = ChipContent::Spectral {
        columns: 0,
        rows: 3,
        colors: Vec::new(),
        blank: spectral_color(0.0),
    };
    let card = render_drag_chip(&spectral, &overwrite);
    assert_eq!(pixel(&card, 0, 0), [0, 0, 0, 0]);
    assert_eq!(pixel(&card, 112, 45), [13, 19, 30, 255]);
    assert_eq!(pixel(&card, 112, 4), [204, 222, 238, 90]);
    assert_eq!(pixel(&card, 112, 7), [18, 16, 28, 245]);
    assert_eq!(pixel(&card, 4, 4), [0, 0, 0, 0]);
    assert_eq!(pixel(&card, 112, 88), [0, 0, 0, 55]);

    let silent = render_drag_chip(&ChipContent::Waveform { bars: Vec::new() }, &overwrite);
    assert_eq!(pixel(&silent, 16, 44), [75, 98, 124, 160]);
    assert_eq!(pixel(&silent, 208, 44), [75, 98, 124, 160]);
    assert_eq!(pixel(&silent, 209, 44), [13, 19, 30, 255]);

    let quiet = render_drag_chip(&ChipContent::Midi { notes: Vec::new() }, &overwrite);
    assert_eq!(pixel(&quiet, 100, 45), [55, 72, 92, 120]);
    assert_eq!(pixel(&quiet, 210, 45), [55, 72, 92, 120]);
    assert_eq!(pixel(&quiet, 13, 45), [13, 19, 30, 255]);
}

#[test]
fn bars_are_spread_over_the_panel() {
    let overwrite = |_below: Pixel, color: Pixel| color;
    let bars = vec![
        BarRows { one: 20, other: 30 },
        BarRows { one: 40, other: 40 },
        BarRows { one: 50, other: 44 },
    ];
    let image = render_drag_chip(&ChipContent::Waveform { bars }, &overwrite);
    let bar = [169, 222, 255, 235];
    let glow = [168, 107, 234, 70];
    assert_eq!(pixel(&image, 16, 20), bar);
    assert_eq!(pixel(&image, 17, 29), bar);
    assert_eq!(pixel(&image, 18, 29), glow);
    assert_eq!(pixel(&image, 16, 30), [13, 19, 30, 255]);
    assert_eq!(pixel(&image, 112, 40), bar);
    assert_eq!(pixel(&image, 112, 41), [13, 19, 30, 255]);
    assert_eq!(pixel(&image, 208, 44), bar);
    assert_eq!(pixel(&image, 208, 49), bar);
    assert_eq!(pixel(&image, 208, 50), [13, 19, 30, 255]);
}

#[test]
fn missing_cells_are_blank() {
    let overwrite = |_below: Pixel, color: Pixel| color;
    let hot = spectral_color(1.0);
    let cold = spectral_color(0.0);
    let image = render_drag_chip(
        &ChipContent::Spectral {
            columns: 2,
            rows: 2,
            colors: vec![hot, cold],
            blank: cold,
        },
        &overwrite,
    );
    // Column 0: the low row is at the bottom.
    assert_eq!(pixel(&image, 20, 70), [hot.r, hot.g, hot.b, hot.a]);
    assert_eq!(pixel(&image, 20, 20), [cold.r, cold.g, cold.b, cold.a]);
    // Column 1 has no colors.
    assert_eq!(pixel(&image, 200, 70), [cold.r, cold.g, cold.b, cold.a]);
}

#[test]
fn chips_have_a_smallest_size() {
    let content = ChipContent::Midi { notes: Vec::new() };
    let image = render_drag_chip_sized(&content, 1, 1, &source_over);
    assert_eq!((image.width, image.height), (32, 24));
    assert_eq!(image.rgba.len(), 32 * 24 * 4);
    assert_eq!(image.pixel_count(), 32 * 24);
    let huge = DragChipImage {
        width: usize::MAX,
        height: 2,
        rgba: Vec::new(),
    };
    assert_eq!(huge.pixel_count(), usize::MAX);
}

#[test]
fn pixel_formats_are_converted() {
    let rgba = [1, 2, 3, 4, 10, 20, 30, 255, 9];
    assert_eq!(rgba_to_bgra(&rgba), vec![3, 2, 1, 4, 30, 20, 10, 255]);
    assert_eq!(pack_x11_pixels(&rgba[..8], 24), vec![3, 2, 1, 4, 30, 20, 10, 255]);
    assert_eq!(pack_x11_pixels(&rgba[..8], 8), vec![3, 2, 1, 4, 30, 20, 10, 255]);
    assert_eq!(
        rgba_to_argb8888_premul(&[200, 100, 50, 128, 7, 8, 9, 255, 1, 1, 1, 0]),
        vec![25, 50, 100, 128, 9, 8, 7, 255, 0, 0, 0, 0]
    );
    let twice = rgba_to_bgra(&rgba_to_bgra(&rgba[..8]));
    assert_eq!(twice, rgba[..8].to_vec());
}

#[test]
fn icons_are_flat_panels() {
    let at = |bytes: &Vec<u8>, x: usize, y: usize| {
        let i = (y * ICON_WIDTH + x) * 4;
        [bytes[i], bytes[i + 1], bytes[i + 2], bytes[i + 3]]
    };
    let midi = render_drag_icon(&ChipContent::Midi { notes: Vec::new() });
    assert_eq!(midi.len(), ICON_WIDTH * ICON_HEIGHT * 4);
    assert_eq!(at(&midi, 0, 0), [31, 24, 22, 230]);
    assert_eq!(at(&midi, 1, 1), [46, 37, 34, 238]);
    assert_eq!(at(&midi, ICON_WIDTH - 1, ICON_HEIGHT - 1), [31, 24, 22, 230]);

    let wave = render_drag_icon(&ChipContent::Waveform {
        bars: vec![BarRows { one: 20, other: 25 }, BarRows { one: 60, other: 60 }],
    });
    assert_eq!(at(&wave, 12, 20), [196, 229, 104, 245]);
    assert_eq!(at(&wave, 13, 24), [196, 229, 104, 245]);
    assert_eq!(at(&wave, 14, 24), [46, 37, 34, 238]);
    assert_eq!(at(&wave, 100, 44), [111, 93, 86, 170]);
    assert_eq!(at(&wave, 180, 60), [196, 229, 104, 245]);

    let hot = spectral_color(1.0);
    let cold = spectral_color(0.0);
    let spectral = render_drag_icon(&ChipContent::Spectral {
        columns: 2,
        rows: 2,
        colors: vec![cold, hot, cold, cold],
        blank: cold,
    });
    assert_eq!(at(&spectral, 10, 10), [hot.b, hot.g, hot.r, hot.a]);
    assert_eq!(at(&spectral, 10, 70), [cold.b, cold.g, cold.r, cold.a]);
    assert_eq!(at(&spectral, 150, 10), [cold.b, cold.g, cold.r, cold.a]);
}

#[test]
fn contents_scale_as_far_as_the_machine_counts() {
    let cells = |columns: usize, rows: usize, count: usize| ChipContent::Spectral {
        columns,
        rows,
        colors: vec![Pixel { r: 200, g: 2, b: 3, a: 255 }; count],
        blank: Pixel { r: 0, g: 0, b: 0, a: 0 },
    };
    let fits = |content: &ChipContent| content.can_scale_to(224, 90, 16, 14);
    assert!(fits(&cells(usize::MAX, 0, 1)));
    assert!(fits(&cells(usize::MAX, 1, 0)));
    assert!(!fits(&cells(usize::MAX, 1, 1)));
    assert!(fits(&cells(usize::MAX / 195, usize::MAX / 61, 1)));
    assert!(!fits(&cells(usize::MAX / 195 + 1, 1, 1)));
    assert!(!fits(&cells(1, usize::MAX / 61 + 1, 1)));

    let nothing = render_drag_chip(&cells(usize::MAX, 0, 1), &source_over);
    assert_eq!(nothing, render_drag_chip(&cells(0, 0, 0), &source_over));
    let wide = render_drag_chip(&cells(usize::MAX / 195, 1, 1), &source_over);
    assert_ne!(wide, nothing);
}
