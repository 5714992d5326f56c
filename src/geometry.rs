use vstd::prelude::*;

verus! {

/// Width of the window when no saved geometry exists.
pub const DEFAULT_WIDTH: u32 = 800;

/// Height of the window when no saved geometry exists.
pub const DEFAULT_HEIGHT: u32 = 600;

/// Position and client-area size of a window.
#[derive(Clone, Copy, Debug, PartialEq, Eq, Structural)]
pub struct WindowGeometry {
    pub x: i32,
    pub y: i32,
    pub width: u32,
    pub height: u32,
}

impl WindowGeometry {
    /// A usable geometry has a positive width and height; the position may be
    /// any signed value.
    pub open spec fn wf(self) -> bool {
        self.width > 0 && self.height > 0
    }
}

/// Half of `d`, rounded toward zero.
pub open spec fn half_toward_zero(d: int) -> int {
    if d >= 0 {
        d / 2
    } else {
        -((-d) / 2)
    }
}

/// Offset that centers a span of `size` inside a span of `extent`.
pub open spec fn centered_offset_spec(extent: u32, size: u32) -> int {
    half_toward_zero(extent - size)
}

/// The default-sized window centered on a monitor of the given size.
pub open spec fn centered_spec(monitor_width: u32, monitor_height: u32) -> WindowGeometry {
    WindowGeometry {
        x: centered_offset_spec(monitor_width, DEFAULT_WIDTH) as i32,
        y: centered_offset_spec(monitor_height, DEFAULT_HEIGHT) as i32,
        width: DEFAULT_WIDTH,
        height: DEFAULT_HEIGHT,
    }
}

/// The geometry the window opens with: the saved one verbatim when there is
/// one, else the centered default.
pub open spec fn initial_spec(
    saved: Option<WindowGeometry>,
    monitor_width: u32,
    monitor_height: u32,
) -> WindowGeometry {
    match saved {
        Some(g) => g,
        None => centered_spec(monitor_width, monitor_height),
    }
}

/// Offset that centers `size` inside `extent`, with truncating division.
pub fn centered_offset(extent: u32, size: u32) -> (r: i32)
    ensures
        r as int == centered_offset_spec(extent, size),
{
    if extent >= size {
        ((extent - size) / 2) as i32
    } else {
        -(((size - extent) / 2) as i32)
    }
}

/// The default-sized window centered on the monitor.
pub fn centered_geometry(monitor_width: u32, monitor_height: u32) -> (r: WindowGeometry)
    ensures
        r == centered_spec(monitor_width, monitor_height),
        r.wf(),
{
    WindowGeometry {
        x: centered_offset(monitor_width, DEFAULT_WIDTH),
        y: centered_offset(monitor_height, DEFAULT_HEIGHT),
        width: DEFAULT_WIDTH,
        height: DEFAULT_HEIGHT,
    }
}

/// Resolves the geometry the window opens with. A saved geometry is used as it
/// is, with no check against the current monitor.
pub fn initial_geometry(
    saved: Option<WindowGeometry>,
    monitor_width: u32,
    monitor_height: u32,
) -> (r: WindowGeometry)
    ensures
        r == initial_spec(saved, monitor_width, monitor_height),
        saved is Some ==> r == saved->Some_0,
        saved is None ==> r == centered_spec(monitor_width, monitor_height),
{
    match saved {
        Some(g) => g,
        None => centered_geometry(monitor_width, monitor_height),
    }
}

} // verus!
