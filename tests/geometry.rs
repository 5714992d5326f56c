use origin::geometry::{
    centered_geometry, centered_offset, initial_geometry, WindowGeometry, DEFAULT_HEIGHT,
    DEFAULT_WIDTH,
};

#[test]
fn centering_with_even_difference() {
    assert_eq!(centered_offset(1920, 800), 560);
}

#[test]
fn centering_with_odd_difference_truncates() {
    assert_eq!(centered_offset(801, 800), 0);
    assert_eq!(centered_offset(1081, 600), 240);
}

#[test]
fn centering_on_a_smaller_monitor_truncates_toward_zero() {
    assert_eq!(centered_offset(700, 800), -50);
    assert_eq!(centered_offset(799, 800), 0);
    assert_eq!(centered_offset(0, 800), -400);
}

#[test]
fn centering_on_the_largest_monitor() {
    assert_eq!(centered_offset(u32::MAX, 800), ((u32::MAX - 800) / 2) as i32);
}

#[test]
fn centered_geometry_has_default_size() {
    let g = centered_geometry(1920, 1080);
    assert_eq!(g, WindowGeometry { x: 560, y: 240, width: DEFAULT_WIDTH, height: DEFAULT_HEIGHT });
}

#[test]
fn no_saved_geometry_gives_centered_default() {
    let g = initial_geometry(None, 2560, 1440);
    assert_eq!(g, WindowGeometry { x: 880, y: 420, width: 800, height: 600 });
}

#[test]
fn saved_geometry_is_used_verbatim() {
    let saved = WindowGeometry { x: 100, y: 50, width: 1024, height: 768 };
    assert_eq!(initial_geometry(Some(saved), 1920, 1080), saved);
    assert_eq!(initial_geometry(Some(saved), 640, 480), saved);
}

#[test]
fn saved_off_screen_geometry_is_not_clamped() {
    let saved = WindowGeometry { x: -5000, y: 9000, width: 300, height: 200 };
    assert_eq!(initial_geometry(Some(saved), 1920, 1080), saved);
}
