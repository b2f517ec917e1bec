use vstd::prelude::*;

use crate::position::Position;
use crate::probe::ProbeError;
use crate::probe::ProbeField;
use crate::probe::window_field;
use crate::probe::window_field_value;
use crate::resolution::Resolution;

verus! {

/// One dimension of a window clipped to the screen: when the window
/// would extend past the screen edge, only the part up to the edge is
/// kept.
pub open spec fn clipped_extent(extent: int, offset: int, bound: int) -> int {
    if offset + extent > bound {
        bound - offset
    } else {
        extent
    }
}

/// Clips one window dimension to the screen bound. The result equals
/// `bound - offset` exactly when `offset + extent` overshoots `bound`,
/// and `extent` unchanged otherwise.
pub fn clip_extent(extent: i32, offset: i32, bound: i32) -> (r: i32)
    requires
        0 <= extent,
        0 <= offset,
        0 <= bound,
    ensures
        r == clipped_extent(extent as int, offset as int, bound as int),
        offset + extent > bound ==> r == bound - offset,
        offset + extent <= bound ==> r == extent,
        offset <= bound ==> 0 <= r && offset + r <= bound,
{
    if extent > bound - offset {
        bound - offset
    } else {
        extent
    }
}

/// A snapshot of one window probe: the screen, the window rectangle
/// clipped to the screen, and the window's absolute position.
#[derive(Debug, Clone, Copy, PartialEq, Eq, Structural)]
pub struct WindowInfo {
    pub screen: Resolution,
    pub resolution: Resolution,
    pub position: Position,
}

/// The raw integer fields of a window-query report, in report order.
pub open spec fn window_report_of(text: Seq<char>) -> Result<(int, int, int, int), ProbeField> {
    if window_field_value(text, "Width:"@) is None {
        Err(ProbeField::WindowWidth)
    } else if window_field_value(text, "Height:"@) is None {
        Err(ProbeField::WindowHeight)
    } else if window_field_value(text, "Absolute upper-left X"@) is None {
        Err(ProbeField::WindowUpperLeftX)
    } else if window_field_value(text, "Absolute upper-left Y"@) is None {
        Err(ProbeField::WindowUpperLeftY)
    } else {
        Ok(
            (
                window_field_value(text, "Width:"@).unwrap(),
                window_field_value(text, "Height:"@).unwrap(),
                window_field_value(text, "Absolute upper-left X"@).unwrap(),
                window_field_value(text, "Absolute upper-left Y"@).unwrap(),
            ),
        )
    }
}

/// A probe's raw fields lie within the screen: sizes non-negative and
/// the position inside the screen bounds.
pub open spec fn plausible_window_fields(w: int, h: int, x: int, y: int, screen: Resolution) -> bool {
    0 <= w && 0 <= h && 0 <= x <= screen.width && 0 <= y <= screen.height
}

impl WindowInfo {
    /// The window rectangle never leaves the screen: sizes and offsets
    /// are non-negative and the offset rectangle stays within bounds.
    pub open spec fn wf(self) -> bool {
        &&& self.screen.wf()
        &&& self.resolution.wf()
        &&& self.position.wf()
        &&& self.position.x + self.resolution.width <= self.screen.width
        &&& self.position.y + self.resolution.height <= self.screen.height
    }

    /// The snapshot a probe yields for raw window fields `w` by `h` at
    /// `(x, y)`: each dimension clipped to the screen.
    pub open spec fn of_fields(screen: Resolution, w: int, h: int, x: int, y: int) -> WindowInfo {
        WindowInfo {
            screen,
            resolution: Resolution {
                width: clipped_extent(w, x, screen.width as int) as i32,
                height: clipped_extent(h, y, screen.height as int) as i32,
            },
            position: Position { x: x as i32, y: y as i32 },
        }
    }

    /// Builds the snapshot for one probe outcome, clipping the window
    /// to the screen edge by edge.
    pub fn from_probe(screen: Resolution, window: Resolution, position: Position) -> (r:
        WindowInfo)
        requires
            screen.wf(),
            plausible_window_fields(
                window.width as int,
                window.height as int,
                position.x as int,
                position.y as int,
                screen,
            ),
        ensures
            r == WindowInfo::of_fields(
                screen,
                window.width as int,
                window.height as int,
                position.x as int,
                position.y as int,
            ),
            r.screen == screen,
            r.position == position,
            r.wf(),
    {
        let width = clip_extent(window.width, position.x, screen.width);
        let height = clip_extent(window.height, position.y, screen.height);
        WindowInfo { screen, resolution: Resolution { width, height }, position }
    }

    /// A full-screen capture: the whole screen at the origin.
    pub fn full_screen(screen: Resolution) -> (r: WindowInfo)
        requires
            screen.wf(),
        ensures
            r.screen == screen,
            r.resolution == screen,
            r.position == (Position { x: 0, y: 0 }),
            r.wf(),
    {
        WindowInfo { screen, resolution: screen, position: Position { x: 0, y: 0 } }
    }

    /// Reads a window-query report and clips the window to the screen.
    /// Fails on the first missing or malformed field, and on fields
    /// that place the window outside the screen.
    pub fn from_report(screen: Resolution, report: &str) -> (r: Result<WindowInfo, ProbeError>)
        requires
            screen.wf(),
        ensures
            match window_report_of(report@) {
                Err(f) => r == Err::<WindowInfo, ProbeError>(ProbeError::ParseError(f)),
                Ok((w, h, x, y)) => {
                    if plausible_window_fields(w, h, x, y, screen) {
                        r == Ok::<WindowInfo, ProbeError>(
                            WindowInfo::of_fields(screen, w, h, x, y),
                        )
                    } else {
                        r == Err::<WindowInfo, ProbeError>(
                            ProbeError::ParseError(
                                if !(0 <= w) {
                                    ProbeField::WindowWidth
                                } else if !(0 <= h) {
                                    ProbeField::WindowHeight
                                } else if !(0 <= x <= screen.width) {
                                    ProbeField::WindowUpperLeftX
                                } else {
                                    ProbeField::WindowUpperLeftY
                                },
                            ),
                        )
                    }
                },
            },
            r is Ok ==> r.unwrap().wf() && r.unwrap().screen == screen,
    {
        let w = match window_field(report, "Width:") {
            Some(v) => v,
            None => {
                return Err(ProbeError::ParseError(ProbeField::WindowWidth));
            },
        };
        let h = match window_field(report, "Height:") {
            Some(v) => v,
            None => {
                return Err(ProbeError::ParseError(ProbeField::WindowHeight));
            },
        };
        let x = match window_field(report, "Absolute upper-left X") {
            Some(v) => v,
            None => {
                return Err(ProbeError::ParseError(ProbeField::WindowUpperLeftX));
            },
        };
        let y = match window_field(report, "Absolute upper-left Y") {
            Some(v) => v,
            None => {
                return Err(ProbeError::ParseError(ProbeField::WindowUpperLeftY));
            },
        };
        if w < 0 {
            return Err(ProbeError::ParseError(ProbeField::WindowWidth));
        }
        if h < 0 {
            return Err(ProbeError::ParseError(ProbeField::WindowHeight));
        }
        if x < 0 || x > screen.width {
            return Err(ProbeError::ParseError(ProbeField::WindowUpperLeftX));
        }
        if y < 0 || y > screen.height {
            return Err(ProbeError::ParseError(ProbeField::WindowUpperLeftY));
        }
        Ok(WindowInfo::from_probe(screen, Resolution::new(w, h), Position::new(x, y)))
    }
}

} // verus!
