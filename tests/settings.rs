use origin::geometry::WindowGeometry;
use origin::settings::{geometry_from_ints, Settings};

#[test]
fn new_settings_hold_no_geometry() {
    assert_eq!(Settings::new().window_geometry(), None);
}

#[test]
fn set_then_get_returns_the_same_geometry() {
    let mut s = Settings::new();
    s.set_window_geometry(-20, 35, 1280, 720);
    assert_eq!(s.window_geometry(), Some(WindowGeometry { x: -20, y: 35, width: 1280, height: 720 }));
}

#[test]
fn settings_text_is_a_json_array() {
    let mut s = Settings::new();
    s.set_window_geometry(-20, 35, 1280, 720);
    assert_eq!(s.to_text(), "[-20,35,1280,720]");
    assert_eq!(Settings::new().to_text(), "[]");
}

#[test]
fn save_then_load_round_trips() {
    let cases = [
        (0, 0, 1, 1),
        (-20, 35, 1280, 720),
        (i32::MIN, i32::MAX, u32::MAX, u32::MAX),
        (i32::MAX, i32::MIN, 1, u32::MAX),
    ];
    for (x, y, w, h) in cases {
        let mut s = Settings::new();
        s.set_window_geometry(x, y, w, h);
        let loaded = Settings::from_text(&s.to_text());
        assert_eq!(loaded.window_geometry(), Some(WindowGeometry { x, y, width: w, height: h }));
    }
}

#[test]
fn empty_settings_round_trip() {
    let loaded = Settings::from_text(&Settings::new().to_text());
    assert_eq!(loaded.window_geometry(), None);
}

#[test]
fn text_with_spaces_is_read() {
    let loaded = Settings::from_text(" [ 10 , 20 , 300 , 400 ] ");
    assert_eq!(loaded.window_geometry(), Some(WindowGeometry { x: 10, y: 20, width: 300, height: 400 }));
}

#[test]
fn unreadable_text_gives_no_geometry() {
    assert_eq!(Settings::from_text("").window_geometry(), None);
    assert_eq!(Settings::from_text("not json").window_geometry(), None);
    assert_eq!(Settings::from_text("{\"x\":1}").window_geometry(), None);
    assert_eq!(Settings::from_text("[1,2,3]").window_geometry(), None);
}

#[test]
fn zero_size_is_not_a_usable_geometry() {
    assert_eq!(geometry_from_ints(&vec![1, 2, 0, 5]), None);
    assert_eq!(geometry_from_ints(&vec![1, 2, 5, 0]), None);
    assert_eq!(Settings::from_text("[1,2,0,5]").window_geometry(), None);
}

#[test]
fn out_of_range_integers_are_rejected() {
    assert_eq!(geometry_from_ints(&vec![i32::MAX as i64 + 1, 0, 5, 5]), None);
    assert_eq!(geometry_from_ints(&vec![0, i32::MIN as i64 - 1, 5, 5]), None);
    assert_eq!(geometry_from_ints(&vec![0, 0, u32::MAX as i64 + 1, 5]), None);
    assert_eq!(geometry_from_ints(&vec![0, 0, 5, -1]), None);
    assert_eq!(geometry_from_ints(&vec![0, 0, 5, 5, 5]), None);
}

#[test]
fn four_integers_in_range_are_a_geometry() {
    assert_eq!(
        geometry_from_ints(&vec![-7, 8, 9, 10]),
        Some(WindowGeometry { x: -7, y: 8, width: 9, height: 10 })
    );
}
