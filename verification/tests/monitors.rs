use audio_plugin_dnd::hyprland::{
    hypr_preview_monitors, hypr_window_at, hypr_window_at_x11_point, parse_hypr_clients,
    parse_hypr_monitors,
};
use audio_plugin_dnd::monitors::{
    clamp_i32_to_i16, contains_point, name_or_default, preview_coordinate_remap_enabled,
    preview_monitors, preview_position, randr_monitor_name, DragCoordinateMapper, HyprMonitor,
    PreviewMonitor,
};

fn x11(name: &str, x: i32, y: i32, width: i32, height: i32) -> PreviewMonitor {
    PreviewMonitor {
        name: name.to_string(),
        x,
        y,
        width,
        height,
    }
}

fn hypr(
    name: &str,
    (x, y): (i32, i32),
    (width, height): (i32, i32),
    scale: f32,
    (x11_x, x11_y): (i32, i32),
) -> HyprMonitor<f32> {
    HyprMonitor {
        name: name.to_string(),
        x,
        y,
        width,
        height,
        logical_width: (width as f32 / scale.max(1.0)).round() as i32,
        logical_height: (height as f32 / scale.max(1.0)).round() as i32,
        scale,
        enlarged: scale > 1.001,
        x11_x,
        x11_y,
    }
}

fn mapper(
    x11_monitors: Vec<PreviewMonitor>,
    hypr_monitors: Vec<HyprMonitor<f32>>,
    env_scale: f32,
) -> DragCoordinateMapper<f32> {
    DragCoordinateMapper::new(x11_monitors, hypr_monitors, env_scale, env_scale > 1.0)
}

fn stretch(base: i32, distance: i32, scale: f32) -> i32 {
    base + (distance as f32 * scale).round() as i32
}

fn shrink(base: i32, distance: i32, scale: f32) -> i32 {
    base + (distance as f32 / scale.max(1.0)).round() as i32
}

#[test]
fn coordinate_mapper_keeps_single_scale_monitor_identity() {
    let mapper = mapper(
        vec![x11("DP-1", 0, 0, 1920, 1080)],
        vec![hypr("DP-1", (0, 0), (1920, 1080), 1.0, (0, 0))],
        1.0,
    );

    assert_eq!(mapper.map_point(None, 640, 480, &stretch), (640, 480));
    assert_eq!(mapper.target_point(640, 480), (640, 480));
}

#[test]
fn coordinate_mapper_scales_primary_logical_point_to_x11() {
    let mapper = mapper(
        vec![x11("DP-3", 0, 0, 3840, 2160)],
        vec![hypr("DP-3", (0, 0), (3840, 2160), 1.5, (0, 0))],
        1.0,
    );

    assert_eq!(mapper.map_point(None, 1280, 720, &stretch), (1920, 1080));
    // XDND / preview consumers must keep QueryPointer coords as-is.
    assert_eq!(mapper.target_point(1280, 720), (1280, 720));
}

#[test]
fn coordinate_mapper_uses_secondary_monitor_origin_and_scale() {
    let mapper = mapper(
        vec![
            x11("DP-3", 0, 0, 3840, 2160),
            x11("HDMI-A-1", 3840, 0, 2560, 1440),
        ],
        vec![
            hypr("DP-3", (0, 0), (3840, 2160), 1.5, (0, 0)),
            hypr("HDMI-A-1", (2560, 0), (2560, 1440), 1.0, (3840, 0)),
        ],
        1.0,
    );

    assert_eq!(mapper.map_point(None, 3000, 500, &stretch), (4280, 500));
    assert_eq!(mapper.target_point(3000, 500), (3000, 500));
}

#[test]
fn coordinate_mapper_keeps_unknown_compositor_identity() {
    let mapper = mapper(vec![x11("screen", 0, 0, 2560, 1440)], Vec::new(), 1.0);

    assert_eq!(mapper.map_point(None, 2400, 700, &stretch), (2400, 700));
    assert_eq!(mapper.target_point(2400, 700), (2400, 700));
}

#[test]
fn forced_switches_decide_about_mapping() {
    let scaled = mapper(
        vec![x11("DP-3", 0, 0, 3840, 2160)],
        vec![hypr("DP-3", (0, 0), (3840, 2160), 1.5, (0, 0))],
        1.0,
    );
    assert_eq!(scaled.map_point(Some(false), 1280, 720, &stretch), (1280, 720));
    assert!(scaled.coordinate_remap_enabled(None));
    let plain = mapper(vec![x11("screen", 100, 0, 3840, 2160)], Vec::new(), 2.0);
    assert!(!plain.coordinate_remap_enabled(None));
    assert_eq!(plain.map_point(None, 200, 50, &stretch), (200, 50));
    assert_eq!(plain.map_point(Some(true), 200, 50, &stretch), (300, 100));
    // Narrow monitors are not enlarged.
    let narrow = mapper(vec![x11("screen", 100, 0, 2560, 1440)], Vec::new(), 2.0);
    assert_eq!(narrow.map_point(Some(true), 200, 50, &stretch), (200, 50));
    assert_eq!(preview_coordinate_remap_enabled(None), None);
    assert_eq!(preview_coordinate_remap_enabled(Some("ON")), Some(true));
    assert_eq!(preview_coordinate_remap_enabled(Some("no")), Some(false));
}

#[test]
fn x11_points_are_mapped_back() {
    let mapper = mapper(
        vec![x11("DP-3", 0, 0, 3840, 2160)],
        vec![hypr("DP-3", (10, 20), (3840, 2160), 1.5, (0, 0))],
        1.0,
    );
    assert_eq!(
        mapper.map_x11_to_logical(1920, 1080, &shrink),
        Some((1290, 740))
    );
    assert_eq!(mapper.map_x11_to_logical(3840, 0, &shrink), None);
}

#[test]
fn pointer_positions_are_kept() {
    let mapper = mapper(Vec::new(), Vec::new(), 1.0);
    assert_eq!(mapper.lookup_position(-5, 7), (-5, 7));
    let sample = mapper.sample(3, 4, 0x0100, true);
    assert_eq!((sample.raw_x, sample.raw_y, sample.x, sample.y), (3, 4, 3, 4));
    assert!(sample.button1_held && sample.route_enabled);
    let sample = mapper.sample(3, 4, 0x0e00, false);
    assert!(!sample.button1_held && !sample.route_enabled);
    let release = mapper.release(3, 4, 99);
    assert_eq!((release.time, release.x, release.y), (99, 3, 4));
}

#[test]
fn positions_are_clamped() {
    assert_eq!(clamp_i32_to_i16(40_000), 32_767);
    assert_eq!(clamp_i32_to_i16(-40_000), -32_768);
    assert_eq!(clamp_i32_to_i16(-7), -7);
    assert!(contains_point(-5, 0, 10, 10, 4, 9));
    assert!(!contains_point(-5, 0, 10, 10, 5, 9));
    assert!(!contains_point(-5, 0, 10, 10, -6, 9));
    assert_eq!(preview_position(1920, 1080, 224, 96, 100, 200), (120, 222));
    assert_eq!(preview_position(1920, 1080, 224, 96, 1900, 1070), (1688, 976));
    assert_eq!(preview_position(1920, 1080, 224, 96, -100, -100), (0, 0));
}

#[test]
fn monitors_are_named() {
    assert_eq!(name_or_default(Some("DP-1".to_string())), "DP-1");
    assert_eq!(name_or_default(Some(String::new())), "monitor");
    assert_eq!(name_or_default(None), "monitor");
    assert_eq!(randr_monitor_name(Some(b"HDMI-A-1".to_vec())), "HDMI-A-1");
    assert_eq!(randr_monitor_name(Some(vec![b'D', 0xff])), "D\u{fffd}");
    assert_eq!(randr_monitor_name(Some(Vec::new())), "monitor");
    assert_eq!(randr_monitor_name(None), "monitor");
    let whole = preview_monitors(None, 1920, 1080);
    assert_eq!(whole.len(), 1);
    assert_eq!(whole[0].name, "screen");
    assert_eq!((whole[0].width, whole[0].height), (1920, 1080));
    assert_eq!(preview_monitors(Some(Vec::new()), 1, 1)[0].name, "screen");
    let some = preview_monitors(Some(vec![x11("DP-1", 0, 0, 5, 5)]), 1, 1);
    assert_eq!(some[0].name, "DP-1");
}

#[test]
fn maps_are_summed_up() {
    let plain = mapper(vec![x11("screen", 0, 0, 2560, 1440)], Vec::new(), 1.0);
    assert_eq!(
        plain.summary(&Vec::new(), "1.00"),
        "x11=[screen=2560x1440+0+0] hypr=unavailable env_scale=1.00"
    );
    let scaled = mapper(
        vec![
            x11("DP-3", 0, 0, 3840, 2160),
            x11("HDMI-A-1", 3840, -10, 2560, 1440),
        ],
        vec![hypr("DP-3", (0, 0), (3840, 2160), 1.5, (0, 0))],
        1.0,
    );
    assert_eq!(
        scaled.summary(&vec!["1.50".to_string()], "1.00"),
        "x11=[DP-3=3840x2160+0+0,HDMI-A-1=2560x1440+3840+-10] hypr=[DP-3=logical 2560x1440+0+0 scale 1.50 -> x11 +0+0] env_scale=1.00"
    );
}

#[test]
fn reported_monitors_are_read() {
    let output = br#"[
        {"name": "DP-3", "x": 0, "y": 10, "width": 3840, "height": 2160, "scale": 1.5},
        {"name": "DP-4", "x": 0, "y": 0, "width": 3840, "height": 2160},
        {"name": "DP-5", "x": 4294967296, "y": 0, "width": 1, "height": 1, "scale": 1},
        {"name": 7, "x": 0, "y": 0, "width": 1, "height": 1, "scale": 1},
        {"name": "HDMI-A-1", "x": 2560, "y": 0, "width": 2560, "height": 1440, "scale": 1}
    ]"#
    .to_vec();
    let reported = parse_hypr_monitors(&output);
    assert_eq!(reported.len(), 2);
    assert_eq!(reported[0].name, "DP-3");
    assert_eq!((reported[0].x, reported[0].y), (0, 10));
    assert_eq!((reported[0].width, reported[0].height), (3840, 2160));
    assert_eq!(f64::from_bits(reported[0].scale_bits), 1.5);
    assert_eq!(f64::from_bits(reported[1].scale_bits), 1.0);
    assert_eq!(parse_hypr_monitors(&b"{}".to_vec()).len(), 0);
    assert_eq!(parse_hypr_monitors(&b"not json".to_vec()).len(), 0);

    let placed = hypr_preview_monitors(&reported, &vec![x11("HDMI-A-1", 3840, 5, 1, 1)]);
    assert_eq!(placed.len(), 1);
    assert_eq!(placed[0].monitor.name, "HDMI-A-1");
    assert_eq!((placed[0].x11_x, placed[0].x11_y), (3840, 5));
}

#[test]
fn reported_clients_are_found() {
    let output = br#"[
        {"hidden": true, "at": [0, 0], "size": [100, 100], "class": "ghost"},
        {"at": [0, 0], "size": [100], "class": "broken"},
        {"hidden": false, "at": [0, 0], "size": [50, 50], "class": "bitwig", "title": "song"},
        {"at": [0, 0], "size": [100, 100], "class": "files", "title": ""},
        {"at": [100, 100], "size": [10, 10]}
    ]"#
    .to_vec();
    let clients = parse_hypr_clients(&output);
    assert_eq!(clients.len(), 4);
    assert_eq!(hypr_window_at(&clients, 10, 10), Some("bitwig / song".to_string()));
    assert_eq!(hypr_window_at(&clients, 50, 10), Some("files".to_string()));
    assert_eq!(
        hypr_window_at(&clients, 105, 105),
        Some("native Wayland app".to_string())
    );
    assert_eq!(hypr_window_at(&clients, 110, 105), None);
    assert_eq!(hypr_window_at(&Vec::new(), 0, 0), None);
}

#[test]
fn native_clients_are_found_under_x11_points() {
    let output = br#"[{"at": [1000, 700], "size": [400, 100], "class": "discord"}]"#.to_vec();
    let mapper = mapper(
        vec![x11("DP-3", 0, 0, 3840, 2160)],
        vec![hypr("DP-3", (0, 0), (3840, 2160), 1.5, (0, 0))],
        1.0,
    );
    let label = |x, y| hypr_window_at_x11_point(&mapper, &output, x, y, &shrink);
    assert_eq!(label(1920, 1080), Some("discord".to_string()));
    assert_eq!(label(1400, 700), None);
    assert_eq!(label(3900, 1080), None);
}
