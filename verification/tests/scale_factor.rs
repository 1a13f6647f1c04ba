use winit::scale::{resolve_target_monitor, MonitorHit};

// Logical bounds of a monitor, as the platform reports them.
#[derive(Clone, Copy)]
struct Bounds {
    x: f64,
    y: f64,
    width: f64,
    height: f64,
    scale: f64,
}

enum Position {
    Physical(i32, i32),
    Logical(f64, f64),
}

// The floating-point geometry for each monitor, then the library's choice.
fn resolve_scale_factor(position: &Position, monitors: &[Bounds]) -> Option<f64> {
    let hits: Vec<MonitorHit> = monitors
        .iter()
        .map(|m| {
            let usable = !(m.width <= 0.0 || m.scale <= 0.0);
            let (lx, ly) = match position {
                Position::Physical(x, y) => (*x as f64 / m.scale, *y as f64 / m.scale),
                Position::Logical(x, y) => (*x, *y),
            };
            let contains = usable
                && lx >= m.x
                && lx < m.x + m.width
                && ly >= m.y
                && ly < m.y + m.height;
            MonitorHit::new(usable, contains)
        })
        .collect();
    resolve_target_monitor(&hits).map(|i| monitors[i].scale)
}

fn monitor(x: f64, y: f64, width: f64, height: f64, scale: f64) -> Bounds {
    Bounds { x, y, width, height, scale }
}

fn physical(x: i32, y: i32) -> Position {
    Position::Physical(x, y)
}

fn logical(x: f64, y: f64) -> Position {
    Position::Logical(x, y)
}

fn macos_layout() -> Vec<Bounds> {
    vec![monitor(0.0, 0.0, 1728.0, 1117.0, 2.0), monitor(-816.0, -1440.0, 3440.0, 1440.0, 1.0)]
}

#[test]
fn physical_position_on_2x_monitor() {
    let monitors = macos_layout();
    let result = resolve_scale_factor(&physical(400, 600), &monitors);
    assert_eq!(result, Some(2.0));
}

#[test]
fn physical_position_on_1x_monitor() {
    let monitors = macos_layout();
    let result = resolve_scale_factor(&physical(-500, -1000), &monitors);
    assert_eq!(result, Some(1.0));
}

#[test]
fn high_to_low_cross_monitor_restore() {
    let monitors = macos_layout();
    let result = resolve_scale_factor(&physical(-716, -1340), &monitors);
    assert_eq!(result, Some(1.0));
}

#[test]
fn low_to_high_cross_monitor_restore() {
    let monitors = macos_layout();
    let result = resolve_scale_factor(&physical(400, 400), &monitors);
    assert_eq!(result, Some(2.0));
}

#[test]
fn physical_position_outside_all_monitors_returns_none() {
    let monitors = macos_layout();
    let result = resolve_scale_factor(&physical(99999, 99999), &monitors);
    assert_eq!(result, None);
}

#[test]
fn single_monitor_always_matches() {
    let monitors = vec![monitor(0.0, 0.0, 1920.0, 1080.0, 1.0)];
    let result = resolve_scale_factor(&physical(500, 300), &monitors);
    assert_eq!(result, Some(1.0));
}

#[test]
fn single_retina_monitor() {
    let monitors = vec![monitor(0.0, 0.0, 1728.0, 1117.0, 2.0)];
    let result = resolve_scale_factor(&physical(1000, 800), &monitors);
    assert_eq!(result, Some(2.0));
}

#[test]
fn three_monitors_mixed_scales() {
    let monitors = vec![
        monitor(-1920.0, 0.0, 1920.0, 1080.0, 1.0),
        monitor(0.0, 0.0, 1728.0, 1117.0, 2.0),
        monitor(1728.0, 0.0, 2560.0, 1440.0, 1.5),
    ];

    let result = resolve_scale_factor(&physical(-1000, 500), &monitors);
    assert_eq!(result, Some(1.0));

    let result = resolve_scale_factor(&physical(1000, 800), &monitors);
    assert_eq!(result, Some(2.0));

    let result = resolve_scale_factor(&physical(5000, 600), &monitors);
    assert_eq!(result, Some(1.5));
}

#[test]
fn zero_width_monitor_is_skipped() {
    let monitors = vec![monitor(0.0, 0.0, 0.0, 0.0, 2.0), monitor(0.0, 0.0, 1920.0, 1080.0, 1.0)];
    let result = resolve_scale_factor(&physical(500, 300), &monitors);
    assert_eq!(result, Some(1.0));
}

#[test]
fn zero_scale_monitor_is_skipped() {
    let monitors = vec![monitor(0.0, 0.0, 1920.0, 1080.0, 0.0), monitor(0.0, 0.0, 1920.0, 1080.0, 1.0)];
    let result = resolve_scale_factor(&physical(500, 300), &monitors);
    assert_eq!(result, Some(1.0));
}

#[test]
fn empty_monitor_list_returns_none() {
    let result = resolve_scale_factor(&physical(500, 300), &[]);
    assert_eq!(result, None);
}

#[test]
fn logical_position_on_2x_monitor() {
    let monitors = macos_layout();
    let result = resolve_scale_factor(&logical(200.0, 300.0), &monitors);
    assert_eq!(result, Some(2.0));
}

#[test]
fn logical_position_on_1x_monitor() {
    let monitors = macos_layout();
    let result = resolve_scale_factor(&logical(-500.0, -1000.0), &monitors);
    assert_eq!(result, Some(1.0));
}

#[test]
fn logical_position_outside_all_monitors_returns_none() {
    let monitors = macos_layout();
    let result = resolve_scale_factor(&logical(99999.0, 99999.0), &monitors);
    assert_eq!(result, None);
}

#[test]
fn logical_position_three_monitors_mixed_scales() {
    let monitors = vec![
        monitor(-1920.0, 0.0, 1920.0, 1080.0, 1.0),
        monitor(0.0, 0.0, 1728.0, 1117.0, 2.0),
        monitor(1728.0, 0.0, 2560.0, 1440.0, 1.5),
    ];

    let result = resolve_scale_factor(&logical(-1000.0, 500.0), &monitors);
    assert_eq!(result, Some(1.0));

    let result = resolve_scale_factor(&logical(500.0, 500.0), &monitors);
    assert_eq!(result, Some(2.0));

    let result = resolve_scale_factor(&logical(2000.0, 500.0), &monitors);
    assert_eq!(result, Some(1.5));
}

#[test]
fn logical_empty_monitor_list_returns_none() {
    let result = resolve_scale_factor(&logical(500.0, 300.0), &[]);
    assert_eq!(result, None);
}

// --- The choice itself, on recorded hits ---

#[test]
fn first_usable_containing_monitor_wins() {
    let hits = vec![
        MonitorHit::new(true, false),
        MonitorHit::new(true, true),
        MonitorHit::new(true, true),
    ];
    assert_eq!(resolve_target_monitor(&hits), Some(1));
}

#[test]
fn unusable_monitor_is_never_the_target() {
    let hits = vec![MonitorHit::new(false, true), MonitorHit::new(true, true)];
    assert_eq!(resolve_target_monitor(&hits), Some(1));
    let only_unusable = vec![MonitorHit::new(false, true)];
    assert_eq!(resolve_target_monitor(&only_unusable), None);
}

#[test]
fn no_hits_gives_no_target() {
    assert_eq!(resolve_target_monitor(&vec![]), None);
    let misses = vec![MonitorHit::new(true, false), MonitorHit::new(true, false)];
    assert_eq!(resolve_target_monitor(&misses), None);
}
