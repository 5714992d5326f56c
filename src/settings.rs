use vstd::prelude::*;

use crate::geometry::WindowGeometry;
use crate::json::{ints_from_json, ints_to_json, json_int_array, parsed_json_ints};

verus! {

/// Persisted application settings: at most one saved window geometry.
#[derive(Clone, Copy, Debug, PartialEq, Eq, Structural)]
pub struct Settings {
    pub window_geometry: Option<WindowGeometry>,
}

/// A saved geometry, if any, is usable.
pub open spec fn saved_wf(saved: Option<WindowGeometry>) -> bool {
    saved matches Some(g) ==> g.wf()
}

/// The stored text of settings that hold `saved`.
pub open spec fn settings_text(saved: Option<WindowGeometry>) -> Seq<char> {
    json_int_array(settings_ints(saved))
}

/// The four integers a geometry is stored as: x, y, width, height.
pub open spec fn geometry_ints(g: WindowGeometry) -> Seq<i64> {
    seq![g.x as i64, g.y as i64, g.width as i64, g.height as i64]
}

/// The integers stored for the settings: none when no geometry is saved.
pub open spec fn settings_ints(saved: Option<WindowGeometry>) -> Seq<i64> {
    match saved {
        Some(g) => geometry_ints(g),
        None => seq![],
    }
}

/// The geometry four stored integers describe, when they are in range and the
/// size is positive.
pub open spec fn geometry_from_ints_spec(xs: Seq<i64>) -> Option<WindowGeometry> {
    if xs.len() == 4 && i32::MIN <= xs[0] <= i32::MAX && i32::MIN <= xs[1] <= i32::MAX && 0
        < xs[2] <= u32::MAX && 0 < xs[3] <= u32::MAX {
        Some(
            WindowGeometry {
                x: xs[0] as i32,
                y: xs[1] as i32,
                width: xs[2] as u32,
                height: xs[3] as u32,
            },
        )
    } else {
        None
    }
}

/// The saved geometry that a settings text holds.
pub open spec fn geometry_of_text(text: Seq<char>) -> Option<WindowGeometry> {
    match parsed_json_ints(text) {
        Some(xs) => geometry_from_ints_spec(xs),
        None => None,
    }
}

/// Storing settings as integers and reading them back gives the same saved
/// geometry, or none when none was saved.
pub proof fn lemma_settings_ints_round_trip(saved: Option<WindowGeometry>)
    requires
        saved_wf(saved),
    ensures
        geometry_from_ints_spec(settings_ints(saved)) == saved,
{
}

/// Reads a geometry from stored integers; `None` unless there are exactly four,
/// in range, with a positive size.
pub fn geometry_from_ints(xs: &Vec<i64>) -> (r: Option<WindowGeometry>)
    ensures
        r == geometry_from_ints_spec(xs@),
        r matches Some(g) ==> g.wf(),
{
    if xs.len() == 4 {
        let x = xs[0];
        let y = xs[1];
        let w = xs[2];
        let h = xs[3];
        if i32::MIN as i64 <= x && x <= i32::MAX as i64 && i32::MIN as i64 <= y && y
            <= i32::MAX as i64 && 0 < w && w <= u32::MAX as i64 && 0 < h && h <= u32::MAX as i64 {
            return Some(
                WindowGeometry { x: x as i32, y: y as i32, width: w as u32, height: h as u32 },
            );
        }
    }
    None
}

impl Settings {
    /// Settings with no saved geometry.
    pub fn new() -> (r: Settings)
        ensures
            r.window_geometry is None,
    {
        Settings { window_geometry: None }
    }

    /// Reads settings from their stored text. Text that does not hold a usable
    /// geometry yields settings without one.
    pub fn from_text(text: &str) -> (r: Settings)
        ensures
            r.window_geometry == geometry_of_text(text@),
            forall|saved: Option<WindowGeometry>|
                saved_wf(saved) && text@ == #[trigger] settings_text(saved) ==> r.window_geometry
                    == saved,
    {
        let parsed = ints_from_json(text);
        let window_geometry = match parsed {
            Some(xs) => geometry_from_ints(&xs),
            None => None,
        };
        proof {
            assert forall|saved: Option<WindowGeometry>|
                saved_wf(saved) && text@ == #[trigger] settings_text(saved) implies window_geometry
                    == saved by {
                lemma_settings_ints_round_trip(saved);
            }
        }
        Settings { window_geometry }
    }

    /// The stored text of these settings.
    pub fn to_text(&self) -> (r: String)
        ensures
            r@ == settings_text(self.window_geometry),
    {
        let mut xs: Vec<i64> = Vec::new();
        match self.window_geometry {
            Some(g) => {
                xs.push(g.x as i64);
                xs.push(g.y as i64);
                xs.push(g.width as i64);
                xs.push(g.height as i64);
            },
            None => {},
        }
        assert(xs@ =~= settings_ints(self.window_geometry));
        ints_to_json(&xs)
    }

    /// The saved geometry, if any.
    pub fn window_geometry(&self) -> (r: Option<WindowGeometry>)
        ensures
            r == self.window_geometry,
    {
        self.window_geometry
    }

    /// Saves a window geometry, replacing the one saved before.
    pub fn set_window_geometry(&mut self, x: i32, y: i32, width: u32, height: u32)
        ensures
            final(self).window_geometry == Some(WindowGeometry { x, y, width, height }),
    {
        self.window_geometry = Some(WindowGeometry { x, y, width, height });
    }
}

} // verus!
