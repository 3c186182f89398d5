//! From simulation space, whose origin is the middle of the surface, to
//! surface space, whose origin is the top-left corner.

use vstd::prelude::*;
use crate::geometry::{clamp_coord, coord_in_range, Point, PointView, Rect, RectView};

verus! {

/// Where on a surface of the given size a sprite is drawn: the rectangle of
/// the footprint's size whose middle is `position` away from the middle of
/// the surface, `(surface_width / 2, surface_height / 2)`.
pub open spec fn screen_rect_of(
    surface_width: int,
    surface_height: int,
    position: PointView,
    footprint: RectView,
) -> RectView {
    RectView::centered_on(
        position.shifted(clamp_coord(surface_width / 2), clamp_coord(surface_height / 2)),
        footprint.width,
        footprint.height,
    )
}

/// The surface-space rectangle into which a sprite at `position` with the
/// given footprint is drawn. Only the footprint's size matters; its corner
/// says where the sprite sits in its image.
pub fn screen_rect(surface_width: u32, surface_height: u32, position: Point, footprint: Rect) -> (target: Rect)
    ensures
        target@ == screen_rect_of(
            surface_width as int,
            surface_height as int,
            position@,
            footprint@,
        ),
{
    let half_width: i32 = (surface_width / 2) as i32;
    let half_height: i32 = (surface_height / 2) as i32;
    let center = position.plus(Point::new(half_width, half_height));
    Rect::from_center(center, footprint.width(), footprint.height())
}

/// Along one axis, a sprite of the given size placed at `position` on a
/// surface of the given extent lies where plain arithmetic puts it: neither
/// its middle nor its near edge had to be clamped.
pub open spec fn axis_unclamped(extent: int, position: int, size: int) -> bool {
    &&& coord_in_range(position + clamp_coord(extent / 2))
    &&& coord_in_range(position + clamp_coord(extent / 2) - size / 2)
}

/// [`axis_unclamped`] along both axes.
pub open spec fn placement_unclamped(
    surface_width: int,
    surface_height: int,
    position: PointView,
    footprint: RectView,
) -> bool {
    &&& axis_unclamped(surface_width, position.x, footprint.width)
    &&& axis_unclamped(surface_height, position.y, footprint.height)
}

/// Away from the edges of the coordinate range the placement is plain
/// arithmetic: the corner is the position plus half the surface minus half
/// the footprint.
pub proof fn lemma_screen_rect_unclamped(
    surface_width: int,
    surface_height: int,
    position: PointView,
    footprint: RectView,
)
    requires
        position.in_range(),
        footprint.valid(),
        placement_unclamped(surface_width, surface_height, position, footprint),
    ensures
        screen_rect_of(surface_width, surface_height, position, footprint) == (RectView {
            x: position.x + clamp_coord(surface_width / 2) - footprint.width / 2,
            y: position.y + clamp_coord(surface_height / 2) - footprint.height / 2,
            width: footprint.width,
            height: footprint.height,
        }),
{
}

/// The transform commutes with translation: moving the sprite by
/// `(dx, dy)` moves its rectangle on the surface by `(dx, dy)` and leaves
/// its size alone, whatever the surface size. This holds as long as the
/// moved position and both placements stay clear of the edges of the
/// coordinate range, where coordinates are clamped.
pub proof fn lemma_screen_rect_translation(
    surface_width: int,
    surface_height: int,
    position: PointView,
    footprint: RectView,
    dx: int,
    dy: int,
)
    requires
        position.in_range(),
        footprint.valid(),
        coord_in_range(position.x + dx),
        coord_in_range(position.y + dy),
        placement_unclamped(surface_width, surface_height, position, footprint),
        placement_unclamped(
            surface_width,
            surface_height,
            position.shifted(dx, dy),
            footprint,
        ),
    ensures
        screen_rect_of(surface_width, surface_height, position.shifted(dx, dy), footprint)
            == screen_rect_of(surface_width, surface_height, position, footprint).translated(
            dx,
            dy,
        ),
{
}

} // verus!
