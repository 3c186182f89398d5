//! The one entity of the simulation: a sprite that steps when told to.

use vstd::prelude::*;
use crate::geometry::{
    clamp_coord, coord_in_range, lemma_clamped_strides, Point, PointView, Rect, RectView,
};
use crate::input::Direction;
use crate::transform::{screen_rect, screen_rect_of};

verus! {

/// Horizontal coordinate of the position an actor starts at.
pub const START_X: i32 = 0;

/// Vertical coordinate of the position an actor starts at.
pub const START_Y: i32 = 0;

/// Width of the sprite an actor starts with.
pub const START_WIDTH: u32 = 26;

/// Height of the sprite an actor starts with.
pub const START_HEIGHT: u32 = 36;

/// Speed an actor starts with.
pub const START_SPEED: i32 = 10;

/// Mathematical value of an [`Actor`].
pub struct ActorView<A> {
    /// The image the sprite is cut from.
    pub asset: A,
    /// Simulation-space position; the origin is the middle of the surface.
    pub position: PointView,
    /// Where the sprite sits in its image, and how large it is drawn.
    pub footprint: RectView,
    /// Distance covered by one step.
    pub speed: int,
}

impl<A> ActorView<A> {
    /// Position and footprint are what a [`Point`] and a [`Rect`] can hold,
    /// and the speed is an `i32`.
    pub open spec fn valid(self) -> bool {
        &&& self.position.in_range()
        &&& self.footprint.valid()
        &&& i32::MIN <= self.speed <= i32::MAX
    }

    /// Horizontal part of one step in `direction`: `-speed`, `0` or `speed`.
    pub open spec fn stride_x(self, direction: Direction) -> int {
        match direction {
            Direction::Left => -self.speed,
            Direction::Right => self.speed,
            _ => 0,
        }
    }

    /// Vertical part of one step in `direction`: `-speed`, `0` or `speed`.
    /// Down is positive, as on the surface.
    pub open spec fn stride_y(self, direction: Direction) -> int {
        match direction {
            Direction::Up => -self.speed,
            Direction::Down => self.speed,
            _ => 0,
        }
    }

    /// This actor at another position.
    pub open spec fn moved_to(self, x: int, y: int) -> ActorView<A> {
        ActorView { position: PointView { x, y }, ..self }
    }

    /// The actor after one step: its position moves by `speed` along the
    /// axis of `direction` and stops at the edge of the coordinate range;
    /// nothing else changes.
    pub open spec fn stepped(self, direction: Direction) -> ActorView<A> {
        ActorView {
            position: self.position.shifted(self.stride_x(direction), self.stride_y(direction)),
            ..self
        }
    }

    /// The actor after one step in each of `directions`, first to last.
    pub open spec fn stepped_along(self, directions: Seq<Direction>) -> ActorView<A>
        decreases directions.len(),
    {
        if directions.len() == 0 {
            self
        } else {
            self.stepped_along(directions.drop_last()).stepped(directions.last())
        }
    }

    /// What the horizontal parts of the steps in `directions` add up to.
    pub open spec fn net_stride_x(self, directions: Seq<Direction>) -> int
        decreases directions.len(),
    {
        if directions.len() == 0 {
            0
        } else {
            self.net_stride_x(directions.drop_last()) + self.stride_x(directions.last())
        }
    }

    /// What the vertical parts of the steps in `directions` add up to.
    pub open spec fn net_stride_y(self, directions: Seq<Direction>) -> int
        decreases directions.len(),
    {
        if directions.len() == 0 {
            0
        } else {
            self.net_stride_y(directions.drop_last()) + self.stride_y(directions.last())
        }
    }

    /// The walk along `directions` stays inside the coordinate range: after
    /// any number of its steps the strides so far, added to the position,
    /// give coordinates in range.
    pub open spec fn path_clear(self, directions: Seq<Direction>) -> bool {
        forall|taken: int|
            #![trigger directions.take(taken)]
            0 <= taken <= directions.len() ==> {
                &&& coord_in_range(self.position.x + self.net_stride_x(directions.take(taken)))
                &&& coord_in_range(self.position.y + self.net_stride_y(directions.take(taken)))
            }
    }

    /// The actor after `count` steps in one direction.
    pub open spec fn stepped_times(self, direction: Direction, count: nat) -> ActorView<A>
        decreases count,
    {
        if count == 0 {
            self
        } else {
            self.stepped_times(direction, (count - 1) as nat).stepped(direction)
        }
    }
}

/// A sprite: the image it is cut from, where it stands, which part of the
/// image shows it, and how far one step takes it. The actor owns its image
/// for as long as it lives.
pub struct Actor<A> {
    asset: A,
    position: Point,
    footprint: Rect,
    speed: i32,
}

impl<A> View for Actor<A> {
    type V = ActorView<A>;

    closed spec fn view(&self) -> ActorView<A> {
        ActorView {
            asset: self.asset,
            position: self.position@,
            footprint: self.footprint@,
            speed: self.speed as int,
        }
    }
}

/// A source rectangle in the image and the target rectangle on the surface.
#[derive(Clone, Copy, Debug, PartialEq, Eq, Structural)]
pub struct Placement {
    pub source: Rect,
    pub target: Rect,
}

impl<A> Actor<A> {
    /// Every actor's value is valid.
    #[verifier::type_invariant]
    pub open spec fn valid(self) -> bool {
        self@.valid()
    }

    /// An actor made of the given parts.
    pub fn new(asset: A, position: Point, footprint: Rect, speed: i32) -> (actor: Actor<A>)
        ensures
            actor@ == (ActorView {
                asset,
                position: position@,
                footprint: footprint@,
                speed: speed as int,
            }),
            actor@.valid(),
    {
        proof {
            use_type_invariant(&position);
            use_type_invariant(&footprint);
        }
        Actor { asset, position, footprint, speed }
    }

    /// The actor every run begins with: at the origin, cut from the top-left
    /// corner of its image, with the starting size and speed.
    pub fn at_start(asset: A) -> (actor: Actor<A>)
        ensures
            actor@ == (ActorView {
                asset,
                position: PointView { x: START_X as int, y: START_Y as int },
                footprint: RectView {
                    x: 0,
                    y: 0,
                    width: START_WIDTH as int,
                    height: START_HEIGHT as int,
                },
                speed: START_SPEED as int,
            }),
            actor@.valid(),
    {
        Actor::new(
            asset,
            Point::new(START_X, START_Y),
            Rect::new(0, 0, START_WIDTH, START_HEIGHT),
            START_SPEED,
        )
    }

    /// The image the sprite is cut from.
    pub fn asset(&self) -> (asset: &A)
        ensures
            *asset == self@.asset,
    {
        &self.asset
    }

    /// Where the actor stands.
    pub fn position(&self) -> (p: Point)
        ensures
            p@ == self@.position,
    {
        self.position
    }

    /// Which part of the image shows the sprite.
    pub fn footprint(&self) -> (r: Rect)
        ensures
            r@ == self@.footprint,
    {
        self.footprint
    }

    /// How far one step takes the actor.
    pub fn speed(&self) -> (s: i32)
        ensures
            s == self@.speed,
    {
        self.speed
    }

    /// Takes one step in `direction`.
    pub fn step(&mut self, direction: Direction)
        ensures
            final(self)@ == old(self)@.stepped(direction),
        no_unwind
    {
        let forward: i32 = self.speed;
        // Stepping back by the lowest `i32` would be a step forward by one
        // more than an `i32` holds; the position is clamped long before.
        let backward: i32 = if self.speed == i32::MIN {
            i32::MAX
        } else {
            -self.speed
        };
        proof {
            use_type_invariant(&*self);
        }
        self.position = match direction {
            Direction::Left => self.position.offset(backward, 0),
            Direction::Right => self.position.offset(forward, 0),
            Direction::Up => self.position.offset(0, backward),
            Direction::Down => self.position.offset(0, forward),
        };
    }

    /// What to draw on a surface of the given size: the footprint, out of
    /// the image, into the rectangle the transform assigns to the position.
    pub fn placement(&self, surface_width: u32, surface_height: u32) -> (p: Placement)
        ensures
            p.source@ == self@.footprint,
            p.target@ == screen_rect_of(
                surface_width as int,
                surface_height as int,
                self@.position,
                self@.footprint,
            ),
    {
        Placement {
            source: self.footprint,
            target: screen_rect(surface_width, surface_height, self.position, self.footprint),
        }
    }
}

/// After any number of steps in one direction the actor stands where a
/// single stride of that many steps, clamped once, would have put it.
pub proof fn lemma_repeated_steps_clamped<A>(actor: ActorView<A>, direction: Direction, count: nat)
    requires
        actor.valid(),
    ensures
        actor.stepped_times(direction, count) == actor.moved_to(
            clamp_coord(actor.position.x + count * actor.stride_x(direction)),
            clamp_coord(actor.position.y + count * actor.stride_y(direction)),
        ),
    decreases count,
{
    let stride_x = actor.stride_x(direction);
    let stride_y = actor.stride_y(direction);
    if count == 0 {
        assert(count * stride_x == 0 && count * stride_y == 0) by (nonlinear_arith)
            requires
                count == 0,
        ;
    } else {
        let before = (count - 1) as nat;
        lemma_repeated_steps_clamped(actor, direction, before);
        lemma_clamped_strides(actor.position.x, stride_x, before);
        lemma_clamped_strides(actor.position.y, stride_y, before);
        assert((before + 1) * stride_x == count * stride_x && (before + 1) * stride_y == count
            * stride_y) by (nonlinear_arith)
            requires
                before + 1 == count,
        ;
    }
}

/// `count` steps in one direction move the actor by exactly `count` times
/// its speed along that direction's axis and not at all along the other,
/// provided the place it should reach is inside the coordinate range.
pub proof fn lemma_repeated_steps_exact<A>(actor: ActorView<A>, direction: Direction, count: nat)
    requires
        actor.valid(),
        coord_in_range(actor.position.x + count * actor.stride_x(direction)),
        coord_in_range(actor.position.y + count * actor.stride_y(direction)),
    ensures
        actor.stepped_times(direction, count) == actor.moved_to(
            actor.position.x + count * actor.stride_x(direction),
            actor.position.y + count * actor.stride_y(direction),
        ),
        actor.stride_x(direction) == 0 ==> actor.stepped_times(direction, count).position.x
            == actor.position.x,
        actor.stride_y(direction) == 0 ==> actor.stepped_times(direction, count).position.y
            == actor.position.y,
{
    lemma_repeated_steps_clamped(actor, direction, count);
}

/// A step and the step in the opposite direction undo each other, in
/// either order, provided neither step runs into an edge of the coordinate
/// range.
pub proof fn lemma_opposite_steps_cancel<A>(actor: ActorView<A>, direction: Direction)
    requires
        actor.valid(),
        coord_in_range(actor.position.x + actor.stride_x(direction)),
        coord_in_range(actor.position.x - actor.stride_x(direction)),
        coord_in_range(actor.position.y + actor.stride_y(direction)),
        coord_in_range(actor.position.y - actor.stride_y(direction)),
    ensures
        actor.stepped(direction).stepped(direction.opposite_of()) == actor,
        actor.stepped(direction.opposite_of()).stepped(direction) == actor,
{
}

/// Two steps can be taken in either order, provided neither of them, taken
/// first, runs into an edge of the coordinate range.
pub proof fn lemma_steps_commute<A>(actor: ActorView<A>, first: Direction, second: Direction)
    requires
        actor.valid(),
        actor.stepped(first).position == (PointView {
            x: actor.position.x + actor.stride_x(first),
            y: actor.position.y + actor.stride_y(first),
        }),
        actor.stepped(second).position == (PointView {
            x: actor.position.x + actor.stride_x(second),
            y: actor.position.y + actor.stride_y(second),
        }),
    ensures
        actor.stepped(first).stepped(second) == actor.stepped(second).stepped(first),
{
}

/// A walk that stays inside the coordinate range ends where its strides
/// add up to.
pub proof fn lemma_clear_path_adds_up<A>(actor: ActorView<A>, directions: Seq<Direction>)
    requires
        actor.valid(),
        actor.path_clear(directions),
    ensures
        actor.stepped_along(directions) == actor.moved_to(
            actor.position.x + actor.net_stride_x(directions),
            actor.position.y + actor.net_stride_y(directions),
        ),
    decreases directions.len(),
{
    assert(directions.take(directions.len() as int) =~= directions);
    if directions.len() == 0 {
        assert(directions.take(0) =~= directions);
    } else {
        let front = directions.drop_last();
        assert forall|taken: int| 0 <= taken <= front.len() implies {
            &&& coord_in_range(actor.position.x + actor.net_stride_x(#[trigger] front.take(taken)))
            &&& coord_in_range(actor.position.y + actor.net_stride_y(front.take(taken)))
        } by {
            assert(front.take(taken) =~= directions.take(taken));
        }
        lemma_clear_path_adds_up(actor, front);
    }
}

/// The strides of a walk add up to the speed times the number of steps one
/// way less the number of steps the other way, along each axis: only how
/// often each direction occurs matters, not where.
pub proof fn lemma_net_stride_counts<A>(actor: ActorView<A>, directions: Seq<Direction>)
    ensures
        actor.net_stride_x(directions) == (directions.to_multiset().count(Direction::Right)
            - directions.to_multiset().count(Direction::Left)) * actor.speed,
        actor.net_stride_y(directions) == (directions.to_multiset().count(Direction::Down)
            - directions.to_multiset().count(Direction::Up)) * actor.speed,
    decreases directions.len(),
{
    let speed = actor.speed;
    let all = directions.to_multiset();
    if directions.len() == 0 {
        directions.to_multiset_ensures();
        assert(all.len() == 0);
        assert(all.count(Direction::Left) == 0 && all.count(Direction::Right) == 0 && all.count(
            Direction::Up,
        ) == 0 && all.count(Direction::Down) == 0) by {
            vstd::multiset::lemma_multiset_empty_len(all);
        }
        assert(0 * speed == 0);
    } else {
        let front = directions.drop_last();
        let last = directions.last();
        let before = front.to_multiset();
        lemma_net_stride_counts(actor, front);
        assert(directions =~= front.push(last));
        vstd::seq_lib::to_multiset_build(front, last);
        assert(all == before.insert(last));
        vstd::multiset::lemma_insert_increases_count_by_1(before, last);
        vstd::multiset::lemma_insert_other_elements_unchanged(before, last, Direction::Left);
        vstd::multiset::lemma_insert_other_elements_unchanged(before, last, Direction::Right);
        vstd::multiset::lemma_insert_other_elements_unchanged(before, last, Direction::Up);
        vstd::multiset::lemma_insert_other_elements_unchanged(before, last, Direction::Down);
        let right = before.count(Direction::Right) as int;
        let left = before.count(Direction::Left) as int;
        let down = before.count(Direction::Down) as int;
        let up = before.count(Direction::Up) as int;
        assert((right + 1 - left) * speed == (right - left) * speed + speed) by (nonlinear_arith);
        assert((right - (left + 1)) * speed == (right - left) * speed - speed)
            by (nonlinear_arith);
        assert((down + 1 - up) * speed == (down - up) * speed + speed) by (nonlinear_arith);
        assert((down - (up + 1)) * speed == (down - up) * speed - speed) by (nonlinear_arith);
    }
}

/// The order of steps does not matter: two walks made of the same steps
/// end at the same place, provided both stay inside the coordinate range.
pub proof fn lemma_order_of_steps_is_free<A>(
    actor: ActorView<A>,
    one: Seq<Direction>,
    other: Seq<Direction>,
)
    requires
        actor.valid(),
        one.to_multiset() == other.to_multiset(),
        actor.path_clear(one),
        actor.path_clear(other),
    ensures
        actor.stepped_along(one) == actor.stepped_along(other),
{
    lemma_clear_path_adds_up(actor, one);
    lemma_clear_path_adds_up(actor, other);
    lemma_net_stride_counts(actor, one);
    lemma_net_stride_counts(actor, other);
}

} // verus!
