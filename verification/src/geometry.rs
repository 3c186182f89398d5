//! Points and rectangles with coordinates kept inside the range that lets a
//! rectangle's far edge always fit in an `i32`.

use vstd::prelude::*;

verus! {

/// Lowest coordinate a point or a rectangle's corner can have.
pub const COORD_MIN: i32 = -1_073_741_824;

/// Highest coordinate a point or a rectangle's corner can have.
pub const COORD_MAX: i32 = 1_073_741_823;

/// Largest width or height a rectangle can have.
pub const SIZE_MAX: u32 = 1_073_741_823;

/// Whether `v` is a coordinate that needs no clamping.
pub open spec fn coord_in_range(v: int) -> bool {
    COORD_MIN <= v <= COORD_MAX
}

/// The coordinate in range that is nearest to `v`.
pub open spec fn clamp_coord(v: int) -> int {
    if v > COORD_MAX {
        COORD_MAX as int
    } else if v < COORD_MIN {
        COORD_MIN as int
    } else {
        v
    }
}

/// The admissible size nearest to `v`: never zero, never above `SIZE_MAX`.
pub open spec fn clamp_size(v: int) -> int {
    if v <= 0 {
        1
    } else if v > SIZE_MAX {
        SIZE_MAX as int
    } else {
        v
    }
}

/// Walking in equal strides and clamping after each one ends where one
/// long stride, clamped once, would: a coordinate that has reached an edge
/// stays there while the strides keep their direction.
pub proof fn lemma_clamped_strides(start: int, stride: int, count: nat)
    requires
        coord_in_range(start),
    ensures
        clamp_coord(clamp_coord(start + count * stride) + stride) == clamp_coord(
            start + (count + 1) * stride,
        ),
{
    assert((count + 1) * stride == count * stride + stride) by (nonlinear_arith);
    assert(stride >= 0 ==> count * stride >= 0) by (nonlinear_arith);
    assert(stride <= 0 ==> count * stride <= 0) by (nonlinear_arith);
}

/// Mathematical value of a [`Point`].
pub struct PointView {
    pub x: int,
    pub y: int,
}

impl PointView {
    /// Both coordinates are in range.
    pub open spec fn in_range(self) -> bool {
        coord_in_range(self.x) && coord_in_range(self.y)
    }

    /// The point reached by moving `dx` to the right and `dy` down, each
    /// coordinate stopping at the edge of the range.
    pub open spec fn shifted(self, dx: int, dy: int) -> PointView {
        PointView { x: clamp_coord(self.x + dx), y: clamp_coord(self.y + dy) }
    }
}

/// A point with integer coordinates in `COORD_MIN..=COORD_MAX`.
#[derive(Clone, Copy, Debug, PartialEq, Eq, Structural)]
pub struct Point {
    x: i32,
    y: i32,
}

impl View for Point {
    type V = PointView;

    closed spec fn view(&self) -> PointView {
        PointView { x: self.x as int, y: self.y as int }
    }
}

/// Brings a wide intermediate result back into the coordinate range.
fn clamp_to_coord(v: i64) -> (c: i32)
    ensures
        c == clamp_coord(v as int),
    no_unwind
{
    if v > COORD_MAX as i64 {
        COORD_MAX
    } else if v < COORD_MIN as i64 {
        COORD_MIN
    } else {
        v as i32
    }
}

impl Point {
    /// Every point has both coordinates in range.
    #[verifier::type_invariant]
    pub open spec fn in_range(self) -> bool {
        self@.in_range()
    }

    /// The point `(x, y)`, each coordinate clamped into range.
    pub fn new(x: i32, y: i32) -> (p: Point)
        ensures
            p@ == (PointView { x: clamp_coord(x as int), y: clamp_coord(y as int) }),
    {
        Point { x: clamp_to_coord(x as i64), y: clamp_to_coord(y as i64) }
    }

    /// Horizontal coordinate.
    pub fn x(self) -> (x: i32)
        ensures
            x == self@.x,
            coord_in_range(x as int),
    {
        proof {
            use_type_invariant(&self);
        }
        self.x
    }

    /// Vertical coordinate.
    pub fn y(self) -> (y: i32)
        ensures
            y == self@.y,
            coord_in_range(y as int),
    {
        proof {
            use_type_invariant(&self);
        }
        self.y
    }

    /// This point moved by `dx` and `dy`; a coordinate that would leave the
    /// range stops at its edge.
    pub fn offset(self, dx: i32, dy: i32) -> (moved: Point)
        ensures
            moved@ == self@.shifted(dx as int, dy as int),
        no_unwind
    {
        Point {
            x: clamp_to_coord(self.x as i64 + dx as i64),
            y: clamp_to_coord(self.y as i64 + dy as i64),
        }
    }

    /// Componentwise sum of two points, clamped like [`Point::offset`].
    pub fn plus(self, other: Point) -> (sum: Point)
        ensures
            sum@ == self@.shifted(other@.x, other@.y),
    {
        self.offset(other.x, other.y)
    }
}

/// Mathematical value of a [`Rect`]: its top-left corner and its size.
pub struct RectView {
    pub x: int,
    pub y: int,
    pub width: int,
    pub height: int,
}

impl RectView {
    /// The corner is in range and the size is neither zero nor above
    /// `SIZE_MAX`.
    pub open spec fn valid(self) -> bool {
        &&& coord_in_range(self.x)
        &&& coord_in_range(self.y)
        &&& 1 <= self.width <= SIZE_MAX
        &&& 1 <= self.height <= SIZE_MAX
    }

    /// The rectangle with corner `(x, y)` and the given size, everything
    /// clamped to what a rectangle can hold.
    pub open spec fn clamped(x: int, y: int, width: int, height: int) -> RectView {
        RectView {
            x: clamp_coord(x),
            y: clamp_coord(y),
            width: clamp_size(width),
            height: clamp_size(height),
        }
    }

    /// The rectangle of the given (clamped) size whose middle lies on
    /// `center`. Half of an odd size is rounded down, and a corner that would
    /// leave the range stops at its edge.
    pub open spec fn centered_on(center: PointView, width: int, height: int) -> RectView {
        RectView {
            x: clamp_coord(clamp_coord(center.x) - clamp_size(width) / 2),
            y: clamp_coord(clamp_coord(center.y) - clamp_size(height) / 2),
            width: clamp_size(width),
            height: clamp_size(height),
        }
    }

    /// The same rectangle moved by `(dx, dy)`.
    pub open spec fn translated(self, dx: int, dy: int) -> RectView {
        RectView { x: self.x + dx, y: self.y + dy, width: self.width, height: self.height }
    }

    /// The middle of the rectangle, rounded towards the top-left corner.
    pub open spec fn center(self) -> PointView {
        PointView {
            x: clamp_coord(self.x + self.width / 2),
            y: clamp_coord(self.y + self.height / 2),
        }
    }
}

/// An axis-aligned rectangle that is never empty.
#[derive(Clone, Copy, Debug, PartialEq, Eq, Structural)]
pub struct Rect {
    x: i32,
    y: i32,
    width: u32,
    height: u32,
}

impl View for Rect {
    type V = RectView;

    closed spec fn view(&self) -> RectView {
        RectView {
            x: self.x as int,
            y: self.y as int,
            width: self.width as int,
            height: self.height as int,
        }
    }
}

/// Brings a requested width or height into `1..=SIZE_MAX`.
fn clamp_to_size(v: u32) -> (c: u32)
    ensures
        c == clamp_size(v as int),
{
    if v == 0 {
        1
    } else if v > SIZE_MAX {
        SIZE_MAX
    } else {
        v
    }
}

impl Rect {
    /// Every rectangle has its corner in range and a size in
    /// `1..=SIZE_MAX`.
    #[verifier::type_invariant]
    pub open spec fn valid(self) -> bool {
        self@.valid()
    }

    /// The rectangle with top-left corner `(x, y)`. The corner is clamped
    /// into range; a size of zero becomes one and a size above `SIZE_MAX`
    /// becomes `SIZE_MAX`.
    pub fn new(x: i32, y: i32, width: u32, height: u32) -> (r: Rect)
        ensures
            r@ == RectView::clamped(x as int, y as int, width as int, height as int),
    {
        Rect {
            x: clamp_to_coord(x as i64),
            y: clamp_to_coord(y as i64),
            width: clamp_to_size(width),
            height: clamp_to_size(height),
        }
    }

    /// The rectangle of the given size centred on `center`.
    pub fn from_center(center: Point, width: u32, height: u32) -> (r: Rect)
        ensures
            r@ == RectView::centered_on(center@, width as int, height as int),
    {
        let w: u32 = clamp_to_size(width);
        let h: u32 = clamp_to_size(height);
        let cx: i32 = center.x();
        let cy: i32 = center.y();
        Rect {
            x: clamp_to_coord(cx as i64 - (w / 2) as i64),
            y: clamp_to_coord(cy as i64 - (h / 2) as i64),
            width: w,
            height: h,
        }
    }

    /// Horizontal coordinate of the left side.
    pub fn x(&self) -> (x: i32)
        ensures
            x == self@.x,
            coord_in_range(x as int),
    {
        proof {
            use_type_invariant(self);
        }
        self.x
    }

    /// Vertical coordinate of the top side.
    pub fn y(&self) -> (y: i32)
        ensures
            y == self@.y,
            coord_in_range(y as int),
    {
        proof {
            use_type_invariant(self);
        }
        self.y
    }

    /// Width, at least one.
    pub fn width(&self) -> (w: u32)
        ensures
            w == self@.width,
            1 <= w <= SIZE_MAX,
    {
        proof {
            use_type_invariant(self);
        }
        self.width
    }

    /// Height, at least one.
    pub fn height(&self) -> (h: u32)
        ensures
            h == self@.height,
            1 <= h <= SIZE_MAX,
    {
        proof {
            use_type_invariant(self);
        }
        self.height
    }

    /// The middle of the rectangle, rounded towards the top-left corner.
    pub fn center(&self) -> (c: Point)
        ensures
            c@ == self@.center(),
    {
        proof {
            use_type_invariant(self);
        }
        Point {
            x: clamp_to_coord(self.x as i64 + (self.width / 2) as i64),
            y: clamp_to_coord(self.y as i64 + (self.height / 2) as i64),
        }
    }
}

} // verus!
