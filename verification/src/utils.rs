//! Helpers shared by the rest of the library.
pub mod id;
pub mod path;
pub mod png;
pub mod region;
pub mod scale;
pub mod spawning;
pub mod transform;
pub mod watcher;

use vstd::prelude::*;

use crate::geometry::{Point, Rectangle};
use crate::utils::id::{id_after, IdCounter};

verus! {

/// Identifies a screencast session.
#[derive(Clone, Copy, Debug, PartialEq, Eq, Structural, Hash)]
pub struct CastSessionId(u64);

impl CastSessionId {
    /// The identifier as a number.
    pub closed spec fn value(self) -> u64 {
        self.0
    }

    /// An identifier that no other session has.
    pub fn next(counter: &mut IdCounter) -> (r: CastSessionId)
        ensures
            r.value() == old(counter).value,
            final(counter).value == id_after(old(counter).value),
    {
        CastSessionId(counter.next())
    }

    /// The identifier as a number.
    pub fn get(self) -> (r: u64)
        ensures
            r == self.value(),
    {
        self.0
    }
}

/// Identifies a screencast stream.
#[derive(Clone, Copy, Debug, PartialEq, Eq, Structural, Hash)]
pub struct CastStreamId(u64);

impl CastStreamId {
    /// The identifier as a number.
    pub closed spec fn value(self) -> u64 {
        self.0
    }

    /// An identifier that no other stream has.
    pub fn next(counter: &mut IdCounter) -> (r: CastStreamId)
        ensures
            r.value() == old(counter).value,
            final(counter).value == id_after(old(counter).value),
    {
        CastStreamId(counter.next())
    }

    /// The identifier as a number.
    pub fn get(self) -> (r: u64)
        ensures
            r == self.value(),
    {
        self.0
    }
}

/// The edges of a window that a resize moves.
#[derive(Clone, Copy, Debug, PartialEq, Eq, Structural, Hash)]
pub struct ResizeEdge {
    pub top: bool,
    pub bottom: bool,
    pub left: bool,
    pub right: bool,
}

/// The edge or corner that a client asks to resize by.
#[derive(Clone, Copy, Debug, PartialEq, Eq, Structural)]
pub enum XdgResizeEdge {
    Nowhere,
    Top,
    Bottom,
    Left,
    TopLeft,
    BottomLeft,
    Right,
    TopRight,
    BottomRight,
}

/// The look of the cursor.
#[derive(Clone, Copy, Debug, PartialEq, Eq, Structural)]
pub enum CursorIcon {
    Default,
    Crosshair,
    Move,
    NResize,
    SResize,
    EResize,
    WResize,
    NwResize,
    NeResize,
    SeResize,
    SwResize,
    AllScroll,
}

/// The edges that meet where a client asks to resize.
pub open spec fn edges_of(edge: XdgResizeEdge) -> ResizeEdge {
    ResizeEdge {
        top: edge is Top || edge is TopLeft || edge is TopRight,
        bottom: edge is Bottom || edge is BottomLeft || edge is BottomRight,
        left: edge is Left || edge is TopLeft || edge is BottomLeft,
        right: edge is Right || edge is TopRight || edge is BottomRight,
    }
}

impl From<XdgResizeEdge> for ResizeEdge {
    fn from(edge: XdgResizeEdge) -> (r: ResizeEdge) {
        match edge {
            XdgResizeEdge::Nowhere => ResizeEdge {
                top: false,
                bottom: false,
                left: false,
                right: false,
            },
            XdgResizeEdge::Top => ResizeEdge { top: true, bottom: false, left: false, right: false },
            XdgResizeEdge::Bottom => ResizeEdge {
                top: false,
                bottom: true,
                left: false,
                right: false,
            },
            XdgResizeEdge::Left => ResizeEdge { top: false, bottom: false, left: true, right: false },
            XdgResizeEdge::TopLeft => ResizeEdge {
                top: true,
                bottom: false,
                left: true,
                right: false,
            },
            XdgResizeEdge::BottomLeft => ResizeEdge {
                top: false,
                bottom: true,
                left: true,
                right: false,
            },
            XdgResizeEdge::Right => ResizeEdge {
                top: false,
                bottom: false,
                left: false,
                right: true,
            },
            XdgResizeEdge::TopRight => ResizeEdge {
                top: true,
                bottom: false,
                left: false,
                right: true,
            },
            XdgResizeEdge::BottomRight => ResizeEdge {
                top: false,
                bottom: true,
                left: false,
                right: true,
            },
        }
    }
}

impl vstd::std_specs::convert::FromSpecImpl<XdgResizeEdge> for ResizeEdge {
    open spec fn obeys_from_spec() -> bool {
        true
    }

    open spec fn from_spec(edge: XdgResizeEdge) -> ResizeEdge {
        edges_of(edge)
    }
}

impl ResizeEdge {
    /// The cursor that shows which edges move; edges that do not meet have none of their own.
    pub open spec fn icon(self) -> CursorIcon {
        match (self.top, self.bottom, self.left, self.right) {
            (false, false, true, false) => CursorIcon::WResize,
            (false, false, false, true) => CursorIcon::EResize,
            (true, false, false, false) => CursorIcon::NResize,
            (false, true, false, false) => CursorIcon::SResize,
            (true, false, true, false) => CursorIcon::NwResize,
            (true, false, false, true) => CursorIcon::NeResize,
            (false, true, false, true) => CursorIcon::SeResize,
            (false, true, true, false) => CursorIcon::SwResize,
            _ => CursorIcon::Default,
        }
    }

    /// The cursor that shows which edges move.
    pub fn cursor_icon(self) -> (r: CursorIcon)
        ensures
            r == self.icon(),
    {
        if self.top && self.bottom || self.left && self.right {
            return CursorIcon::Default;
        }
        if self.top {
            if self.left {
                CursorIcon::NwResize
            } else if self.right {
                CursorIcon::NeResize
            } else {
                CursorIcon::NResize
            }
        } else if self.bottom {
            if self.left {
                CursorIcon::SwResize
            } else if self.right {
                CursorIcon::SeResize
            } else {
                CursorIcon::SResize
            }
        } else if self.left {
            CursorIcon::WResize
        } else if self.right {
            CursorIcon::EResize
        } else {
            CursorIcon::Default
        }
    }
}

/// The middle of a rectangle.
pub fn center(rect: Rectangle) -> (r: Point)
    requires
        rect.edges_fit(),
        rect.size.w >= 0,
        rect.size.h >= 0,
    ensures
        (r.x as int, r.y as int) == rect.middle(),
{
    Point { x: rect.loc.x + rect.size.w / 2, y: rect.loc.y + rect.size.h / 2 }
}

/// A size kept within a minimum and a maximum; where they contradict, the minimum counts. A limit of
/// zero or less is none.
pub open spec fn limited(x: int, min_size: int, max_size: int) -> int {
    let below = if max_size > 0 && x > max_size {
        max_size
    } else {
        x
    };
    if min_size > 0 && below < min_size {
        min_size
    } else {
        below
    }
}

/// A size that may be left open by zero: then only a fixed size is enforced.
pub open spec fn limited_or_open(x: int, min_size: int, max_size: int) -> int {
    if x != 0 {
        limited(x, min_size, max_size)
    } else if min_size > 0 && min_size == max_size {
        min_size
    } else {
        0
    }
}

/// Keeps a size within a minimum and a maximum.
pub fn ensure_min_max_size(x: i32, min_size: i32, max_size: i32) -> (r: i32)
    ensures
        r == limited(x as int, min_size as int, max_size as int),
{
    let mut x: i32 = x;
    if max_size > 0 && x > max_size {
        x = max_size;
    }
    if min_size > 0 && x < min_size {
        x = min_size;
    }
    x
}

/// Keeps a size that may be left open within a minimum and a maximum.
pub fn ensure_min_max_size_maybe_zero(x: i32, min_size: i32, max_size: i32) -> (r: i32)
    ensures
        r == limited_or_open(x as int, min_size as int, max_size as int),
{
    if x != 0 {
        ensure_min_max_size(x, min_size, max_size)
    } else if min_size > 0 && min_size == max_size {
        min_size
    } else {
        0
    }
}

/// A limited size meets the minimum, and the maximum as far as the minimum lets it; limiting it again
/// changes nothing, and a size within the limits stays as it is.
pub proof fn law_limited(x: int, min_size: int, max_size: int)
    ensures
        ({
            let r = limited(x, min_size, max_size);
            &&& min_size > 0 ==> r >= min_size
            &&& max_size > 0 ==> r <= max_size || r == min_size
            &&& limited(r, min_size, max_size) == r
            &&& (min_size <= x && (max_size <= 0 || x <= max_size)) ==> r == x
        }),
{
}

/// Milliseconds since an arbitrary start as Wayland events carry them, which start over every seven
/// weeks.
pub open spec fn event_time(secs: int, nanos: int) -> int {
    (secs * 1000 + nanos / 1000000) % 0x1_0000_0000
}

/// The time for Wayland events at a moment of the monotonic clock.
pub fn wayland_time_now(secs: u64, nanos: u32) -> (r: u32)
    ensures
        r == event_time(secs as int, nanos as int),
{
    let millis: u128 = secs as u128 * 1000 + (nanos / 1000000) as u128;
    (millis % 0x1_0000_0000) as u32
}

/// Whether a serial is the same as another or was handed out after it, going by the shorter way round.
pub open spec fn no_older(a: u32, b: u32) -> bool {
    let near = (if a > b {
        a - b
    } else {
        b - a
    }) < u32::MAX / 2;
    if near {
        a >= b
    } else {
        b >= a
    }
}

/// What a configure that a window has not committed to yet is taken from.
#[derive(Clone, Copy, Debug, PartialEq, Eq, Structural)]
pub enum UncommittedConfigure {
    /// The last one that the client has not acknowledged.
    Pending,
    /// The last one that the client has acknowledged.
    Acked,
}

/// Finds the last configure that a window has not committed to yet: one that is not acknowledged, or
/// else the last acknowledged one unless a commit went with it or with a later one.
pub fn last_uncommitted_configure(
    has_pending: bool,
    last_acked: Option<u32>,
    committed: Option<u32>,
) -> (r: Option<UncommittedConfigure>)
    ensures
        r == if has_pending {
            Some(UncommittedConfigure::Pending)
        } else {
            match (last_acked, committed) {
                (None, _) => None,
                (Some(acked), Some(serial)) if no_older(serial, acked) => None,
                _ => Some(UncommittedConfigure::Acked),
            }
        },
{
    if has_pending {
        return Some(UncommittedConfigure::Pending);
    }
    let Some(acked) = last_acked else {
        return None;
    };
    let already_committed: bool = match committed {
        Some(serial) => {
            let distance: u32 = if serial > acked {
                serial - acked
            } else {
                acked - serial
            };
            if distance < u32::MAX / 2 {
                serial >= acked
            } else {
                acked >= serial
            }
        },
        None => false,
    };
    if already_committed {
        None
    } else {
        Some(UncommittedConfigure::Acked)
    }
}

/// Whether a window is told that it is tiled, which makes it rectangular.
///
/// A rule decides if there is one. Otherwise what was agreed on decorations does: `xdg_server_side`
/// through the one protocol, `kde_server_side` through the other. A client that knows neither goes by
/// the user's preference.
pub fn should_tile(
    force_tiled: Option<bool>,
    xdg_server_side: Option<bool>,
    kde_server_side: Option<bool>,
    prefer_no_csd: bool,
) -> (r: bool)
    ensures
        r == match (force_tiled, xdg_server_side, kde_server_side) {
            (Some(forced), _, _) => forced,
            (None, Some(server_side), _) => server_side,
            (None, None, Some(server_side)) => server_side || prefer_no_csd,
            (None, None, None) => prefer_no_csd,
        },
{
    if let Some(forced) = force_tiled {
        forced
    } else if let Some(server_side) = xdg_server_side {
        server_side
    } else if let Some(server_side) = kde_server_side {
        server_side || prefer_no_csd
    } else {
        prefer_no_csd
    }
}

/// The edges by which a client resizes are those that it names.
pub proof fn law_named_edges(edge: XdgResizeEdge)
    ensures
        ({
            let edges = edges_of(edge);
            match edge {
                XdgResizeEdge::Top => edges.top && !edges.bottom && !edges.left && !edges.right,
                XdgResizeEdge::Bottom => !edges.top && edges.bottom && !edges.left && !edges.right,
                XdgResizeEdge::Left => !edges.top && !edges.bottom && edges.left && !edges.right,
                XdgResizeEdge::Right => !edges.top && !edges.bottom && !edges.left && edges.right,
                XdgResizeEdge::TopLeft => edges.top && !edges.bottom && edges.left && !edges.right,
                XdgResizeEdge::TopRight => edges.top && !edges.bottom && !edges.left && edges.right,
                XdgResizeEdge::BottomLeft => !edges.top && edges.bottom && edges.left && !edges.right,
                XdgResizeEdge::BottomRight => !edges.top && edges.bottom && !edges.left
                    && edges.right,
                _ => !edges.top && !edges.bottom && !edges.left && !edges.right,
            }
        }),
{
}

/// The cursor shows which edges move: north is the top, and west is the left.
pub proof fn law_cursor_shows_edges(edges: ResizeEdge)
    requires
        !(edges.top && edges.bottom),
        !(edges.left && edges.right),
    ensures
        ({
            let icon = edges.icon();
            let north = icon is NResize || icon is NwResize || icon is NeResize;
            let south = icon is SResize || icon is SwResize || icon is SeResize;
            let west = icon is WResize || icon is NwResize || icon is SwResize;
            let east = icon is EResize || icon is NeResize || icon is SeResize;
            north == edges.top && south == edges.bottom && west == edges.left && east == edges.right
        }),
{
}

/// A serial that was handed out a while after another is no older than that, even if the count has started
/// over in between, and the other is older.
pub proof fn law_later_serials_are_no_older(serial: u32, later_by: u32)
    requires
        0 < later_by < u32::MAX / 2,
    ensures
        no_older(serial, serial),
        ({
            let sum = serial + later_by;
            let later = (if sum > u32::MAX {
                sum - u32::MAX - 1
            } else {
                sum
            }) as u32;
            no_older(later, serial) && !no_older(serial, later)
        }),
{
}

} // verus!
