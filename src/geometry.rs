use vstd::prelude::*;

verus! {

/// A point, in whole units of the coordinate space it belongs to.
#[derive(Clone, Copy, Debug, PartialEq, Eq, Structural)]
pub struct Point {
    pub x: i64,
    pub y: i64,
}

#[derive(Clone, Copy, Debug, PartialEq, Eq, Structural)]
pub struct Size {
    pub width: i64,
    pub height: i64,
}

/// A rectangle in the native (bottom-left origin, y-up) screen space: `origin`
/// is its bottom-left corner.
#[derive(Clone, Copy, Debug, PartialEq, Eq, Structural)]
pub struct Rect {
    pub origin: Point,
    pub size: Size,
}

/// Every coordinate that the conversions below produce stays within this bound,
/// so that no sum or difference of them leaves `i64`.
pub const COORD_LIMIT: i64 = 1_000_000_000_000;

pub open spec fn in_range(v: int) -> bool {
    -COORD_LIMIT <= v <= COORD_LIMIT
}

pub open spec fn point_in_range(p: Point) -> bool {
    in_range(p.x as int) && in_range(p.y as int)
}

pub open spec fn size_in_range(s: Size) -> bool {
    in_range(s.width as int) && in_range(s.height as int)
}

pub open spec fn rect_in_range(r: Rect) -> bool {
    point_in_range(r.origin) && size_in_range(r.size)
}

/// Vertical flip between the logical space (top-left origin, y-down) and the
/// native space of a screen of height `screen_height`. It is its own inverse.
pub open spec fn flip_y(y: int, screen_height: int) -> int {
    screen_height - y
}

/// The native top-left point of a frame whose logical origin is `origin`.
pub open spec fn spec_native_top_left(origin: Point, screen_height: int) -> (int, int) {
    (origin.x as int, flip_y(origin.y as int, screen_height))
}

/// The logical origin (top-left corner) of a native rectangle.
pub open spec fn spec_logical_origin(r: Rect, screen_height: int) -> (int, int) {
    (r.origin.x as int, flip_y(r.origin.y + r.size.height, screen_height))
}

/// The native rectangle of a content area whose logical origin is `origin`:
/// the native origin is the bottom edge, hence the extra content height.
pub open spec fn spec_native_content_rect(origin: Point, size: Size, screen_height: int) -> (
    int,
    int,
    int,
    int,
) {
    (origin.x as int, flip_y(origin.y + size.height, screen_height), size.width as int, size.height as int)
}

/// Strict containment: a point on the boundary is not inside.
pub open spec fn strictly_inside(p: Point, r: Rect) -> bool {
    r.origin.x < p.x < r.origin.x + r.size.width && r.origin.y < p.y < r.origin.y + r.size.height
}

/// Converts a logical frame origin to the native point that the frame's
/// top-left corner is placed at.
pub fn native_top_left(origin: Point, screen_height: i64) -> (r: Point)
    requires
        point_in_range(origin),
        in_range(screen_height as int),
    ensures
        (r.x as int, r.y as int) == spec_native_top_left(origin, screen_height as int),
{
    Point { x: origin.x, y: screen_height - origin.y }
}

/// Reads the logical origin (top-left corner) of a native rectangle, the frame
/// or the content rectangle of a window.
pub fn logical_origin(r: Rect, screen_height: i64) -> (p: Point)
    requires
        rect_in_range(r),
        in_range(screen_height as int),
    ensures
        (p.x as int, p.y as int) == spec_logical_origin(r, screen_height as int),
{
    Point { x: r.origin.x, y: screen_height - (r.origin.y + r.size.height) }
}

/// The native rectangle that a content area of the given size must occupy for
/// its logical origin to be `origin`.
pub fn native_content_rect(origin: Point, size: Size, screen_height: i64) -> (r: Rect)
    requires
        point_in_range(origin),
        size_in_range(size),
        in_range(screen_height as int),
    ensures
        (r.origin.x as int, r.origin.y as int, r.size.width as int, r.size.height as int)
            == spec_native_content_rect(origin, size, screen_height as int),
{
    Rect {
        origin: Point { x: origin.x, y: screen_height - (origin.y + size.height) },
        size,
    }
}

/// Whether `p` lies strictly inside `r` (both in native space).
pub fn contains_strictly(r: Rect, p: Point) -> (b: bool)
    requires
        rect_in_range(r),
        point_in_range(p),
    ensures
        b == strictly_inside(p, r),
{
    r.origin.x < p.x && p.x < r.origin.x + r.size.width && r.origin.y < p.y && p.y < r.origin.y
        + r.size.height
}

/// Converting a logical content rectangle to native space and reading its
/// logical origin back gives the rectangle that was converted, for every
/// screen height.
pub proof fn lemma_content_round_trip(origin: Point, size: Size, screen_height: int)
    ensures
        ({
            let (x, y, w, h) = spec_native_content_rect(origin, size, screen_height);
            flip_y(y + h, screen_height) == origin.y && x == origin.x && w == size.width && h
                == size.height
        }),
{
}

/// Placing a frame's top-left corner at the native point of a logical origin,
/// then reading the frame's logical origin, gives that origin back.
pub proof fn lemma_frame_round_trip(origin: Point, frame: Rect, screen_height: int)
    requires
        (frame.origin.x as int, frame.origin.y + frame.size.height) == spec_native_top_left(
            origin,
            screen_height,
        ),
    ensures
        spec_logical_origin(frame, screen_height) == (origin.x as int, origin.y as int),
{
}

/// Converting a coordinate to the other space twice gives it back.
pub proof fn lemma_flip_involutive(y: int, screen_height: int)
    ensures
        flip_y(flip_y(y, screen_height), screen_height) == y,
{
}

} // verus!
