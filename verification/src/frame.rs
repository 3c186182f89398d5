//! The frame loop's state and the decisions it takes each frame. The caller
//! polls, draws, presents and sleeps; this module says what follows from
//! each event, which colour to clear with, where the sprite goes and how
//! long to pause.

use vstd::prelude::*;
use crate::actor::{
    lemma_opposite_steps_cancel, lemma_order_of_steps_is_free, lemma_repeated_steps_exact, Actor,
    ActorView, Placement,
};
use crate::color::{
    backdrop, backdrop_of, cycle_color, cycle_color_of, next_counter, next_counter_of, Color,
    CYCLE_LENGTH,
};
use crate::geometry::{coord_in_range, RectView};
use crate::input::{command_for, command_of, Command, Direction, Event};
use crate::transform::screen_rect_of;

verus! {

/// Frames per second the loop aims at.
pub const TARGET_FPS: u32 = 60;

/// Nanoseconds in a second.
pub const NANOS_PER_SECOND: u32 = 1_000_000_000;

/// Whether the loop goes on.
#[derive(Clone, Copy, Debug, PartialEq, Eq, Structural)]
pub enum LoopState {
    Running,
    Terminated,
}

/// Mathematical value of a [`FrameLoop`].
pub struct LoopView<A> {
    pub state: LoopState,
    /// Counter of the current frame, in `0..CYCLE_LENGTH`.
    pub counter: u8,
    /// The sprite, if the loop has one.
    pub actor: Option<ActorView<A>>,
}

impl<A> LoopView<A> {
    /// The counter is inside its cycle and the actor, if any, is valid.
    pub open spec fn valid(self) -> bool {
        &&& self.counter < CYCLE_LENGTH
        &&& self.actor matches Some(actor) ==> actor.valid()
    }

    /// The loop after one event. A loop that has ended stays as it is. A
    /// running loop ends on the quit signal and on the cancel key, steps
    /// its actor on an arrow key, and ignores everything else.
    pub open spec fn after_event(self, event: Event) -> LoopView<A> {
        match self.state {
            LoopState::Terminated => self,
            LoopState::Running => match command_of(event) {
                Command::Quit => LoopView { state: LoopState::Terminated, ..self },
                Command::Step(direction) => match self.actor {
                    Some(actor) => LoopView { actor: Some(actor.stepped(direction)), ..self },
                    None => self,
                },
                Command::Ignore => self,
            },
        }
    }

    /// The loop after a queue of events, taken first to last.
    pub open spec fn after_events(self, events: Seq<Event>) -> LoopView<A>
        decreases events.len(),
    {
        if events.len() == 0 {
            self
        } else {
            self.after_events(events.drop_last()).after_event(events.last())
        }
    }

    /// The colour a frame is cleared with: the fixed backdrop behind an
    /// actor, the colour of the cycle where there is none.
    pub open spec fn background(self) -> Color {
        match self.actor {
            Some(_) => backdrop_of(),
            None => cycle_color_of(self.counter),
        }
    }

    /// Source and target rectangle of the actor's sprite on a surface of
    /// the given size, if there is an actor.
    pub open spec fn placement(self, surface_width: int, surface_height: int) -> Option<
        (RectView, RectView),
    > {
        match self.actor {
            Some(actor) => Some(
                (
                    actor.footprint,
                    screen_rect_of(surface_width, surface_height, actor.position, actor.footprint),
                ),
            ),
            None => None,
        }
    }

    /// The loop at the start of the next frame: only the counter moved on.
    pub open spec fn after_frame(self) -> LoopView<A> {
        LoopView { counter: next_counter_of(self.counter), ..self }
    }
}

/// A frame loop: running or ended, with its frame counter and, in the
/// variant that has one, its actor.
pub struct FrameLoop<A> {
    state: LoopState,
    counter: u8,
    actor: Option<Actor<A>>,
}

impl<A> View for FrameLoop<A> {
    type V = LoopView<A>;

    closed spec fn view(&self) -> LoopView<A> {
        LoopView {
            state: self.state,
            counter: self.counter,
            actor: match self.actor {
                Some(actor) => Some(actor@),
                None => None,
            },
        }
    }
}

/// Steps the actor, if there is one.
fn step_if_present<A>(actor: &mut Option<Actor<A>>, direction: Direction)
    ensures
        match *old(actor) {
            Some(before) => *final(actor) matches Some(after) && after@ == before@.stepped(
                direction,
            ),
            None => *final(actor) is None,
        },
    no_unwind
{
    match actor {
        Some(actor) => {
            actor.step(direction);
        },
        None => {},
    }
}

/// How long the loop sleeps at the end of every frame, in nanoseconds: a
/// full frame's share of a second, whatever the frame's work took.
pub fn frame_pause_nanos() -> (nanos: u32)
    ensures
        nanos == NANOS_PER_SECOND / TARGET_FPS,
        nanos == 16_666_666,
{
    NANOS_PER_SECOND / TARGET_FPS
}

impl<A> FrameLoop<A> {
    /// Every loop's value is valid.
    #[verifier::type_invariant]
    pub open spec fn valid(self) -> bool {
        self@.valid()
    }

    /// A running loop without an actor, whose background cycles.
    pub fn color_cycle() -> (frame_loop: FrameLoop<A>)
        ensures
            frame_loop@ == (LoopView::<A> { state: LoopState::Running, counter: 0, actor: None }),
    {
        FrameLoop { state: LoopState::Running, counter: 0, actor: None }
    }

    /// A running loop around `actor`, with the fixed backdrop.
    pub fn with_actor(actor: Actor<A>) -> (frame_loop: FrameLoop<A>)
        ensures
            frame_loop@ == (LoopView {
                state: LoopState::Running,
                counter: 0,
                actor: Some(actor@),
            }),
    {
        proof {
            use_type_invariant(&actor);
        }
        FrameLoop { state: LoopState::Running, counter: 0, actor: Some(actor) }
    }

    /// Whether the loop goes on.
    pub fn state(&self) -> (state: LoopState)
        ensures
            state == self@.state,
    {
        self.state
    }

    /// Counter of the current frame.
    pub fn frame_counter(&self) -> (counter: u8)
        ensures
            counter == self@.counter,
            counter < CYCLE_LENGTH,
    {
        proof {
            use_type_invariant(self);
        }
        self.counter
    }

    /// The actor, if the loop has one.
    pub fn actor(&self) -> (actor: Option<&Actor<A>>)
        ensures
            match actor {
                Some(actor) => self@.actor == Some(actor@),
                None => self@.actor is None,
            },
    {
        self.actor.as_ref()
    }

    /// Takes one event and says whether the loop goes on.
    pub fn handle_event(&mut self, event: Event) -> (state: LoopState)
        ensures
            final(self)@ == old(self)@.after_event(event),
            state == final(self)@.state,
    {
        proof {
            use_type_invariant(&*self);
        }
        match self.state {
            LoopState::Terminated => {},
            LoopState::Running => match command_for(event) {
                Command::Quit => {
                    self.state = LoopState::Terminated;
                },
                Command::Step(direction) => {
                    step_if_present(&mut self.actor, direction);
                },
                Command::Ignore => {},
            },
        }
        self.state
    }

    /// Takes a frame's queue of events, first to last, and says whether the
    /// loop goes on. Once the loop has ended the rest of the queue is left
    /// alone.
    pub fn handle_events(&mut self, events: &[Event]) -> (state: LoopState)
        ensures
            final(self)@ == old(self)@.after_events(events@),
            state == final(self)@.state,
            state == LoopState::Terminated <==> (old(self)@.state == LoopState::Terminated
                || exists|at: int| 0 <= at < events@.len() && ends_loop(#[trigger] events@[at])),
            final(self)@.counter == old(self)@.counter,
            final(self)@.actor is Some <==> old(self)@.actor is Some,
    {
        let mut i: usize = 0;
        while i < events.len()
            invariant
                i <= events.len(),
                self@ == old(self)@.after_events(events@.take(i as int)),
            decreases events.len() - i,
        {
            let state = self.handle_event(events[i]);
            proof {
                let done = events@.take(i + 1);
                assert(done.drop_last() =~= events@.take(i as int));
                assert(done.last() == events@[i as int]);
            }
            i += 1;
            if state == LoopState::Terminated {
                proof {
                    let done = events@.take(i as int);
                    let rest = events@.skip(i as int);
                    assert(done + rest =~= events@);
                    lemma_after_events_concat(old(self)@, done, rest);
                    lemma_terminated_stays(self@, rest);
                    lemma_ends_only_on_quit(old(self)@, events@);
                    lemma_events_keep_the_rest(old(self)@, events@);
                }
                return state;
            }
        }
        proof {
            assert(events@.take(i as int) =~= events@);
            lemma_ends_only_on_quit(old(self)@, events@);
            lemma_events_keep_the_rest(old(self)@, events@);
        }
        self.state
    }

    /// The colour to clear this frame with.
    pub fn background(&self) -> (color: Color)
        ensures
            color == self@.background(),
    {
        match &self.actor {
            Some(_) => backdrop(),
            None => cycle_color(self.counter),
        }
    }

    /// What to draw on a surface of the given size: nothing without an
    /// actor, otherwise the actor's sprite at its place.
    pub fn placement(&self, surface_width: u32, surface_height: u32) -> (p: Option<Placement>)
        ensures
            match p {
                Some(p) => self@.placement(surface_width as int, surface_height as int) == Some(
                    (p.source@, p.target@),
                ),
                None => self@.placement(surface_width as int, surface_height as int) is None,
            },
    {
        match &self.actor {
            Some(actor) => Some(actor.placement(surface_width, surface_height)),
            None => None,
        }
    }

    /// Moves on to the next frame.
    pub fn end_frame(&mut self)
        ensures
            final(self)@ == old(self)@.after_frame(),
    {
        proof {
            use_type_invariant(&*self);
        }
        self.counter = next_counter(self.counter);
    }
}

/// Taking a queue in two parts is the same as taking it whole.
pub proof fn lemma_after_events_concat<A>(start: LoopView<A>, first: Seq<Event>, second: Seq<Event>)
    ensures
        start.after_events(first + second) == start.after_events(first).after_events(second),
    decreases second.len(),
{
    if second.len() == 0 {
        assert(first + second =~= first);
    } else {
        lemma_after_events_concat(start, first, second.drop_last());
        assert((first + second).drop_last() =~= first + second.drop_last());
        assert((first + second).last() == second.last());
    }
}

/// A queue of one event does what that event does.
pub proof fn lemma_after_single_event<A>(start: LoopView<A>, event: Event)
    ensures
        start.after_events(seq![event]) == start.after_event(event),
{
    let queue = seq![event];
    assert(queue.drop_last() =~= Seq::<Event>::empty());
    assert(queue.last() == event);
    assert(start.after_events(queue.drop_last()) == start);
}

/// A loop that has ended takes no notice of further events.
pub proof fn lemma_terminated_stays<A>(start: LoopView<A>, events: Seq<Event>)
    requires
        start.state == LoopState::Terminated,
    ensures
        start.after_events(events) == start,
    decreases events.len(),
{
    if events.len() > 0 {
        lemma_terminated_stays(start, events.drop_last());
    }
}

/// A queue of `count` key-down events of the arrow key for `direction`.
pub open spec fn key_downs(direction: Direction, count: nat) -> Seq<Event> {
    Seq::new(count, |i: int| Event::KeyDown(direction.key_of()))
}

/// The queue of key-down events that asks for a step in each of
/// `directions`, first to last.
pub open spec fn arrow_keys(directions: Seq<Direction>) -> Seq<Event> {
    Seq::new(directions.len(), |i: int| Event::KeyDown(directions[i].key_of()))
}

/// Whether `event` is the quit signal or the cancel key going down.
pub open spec fn ends_loop(event: Event) -> bool {
    command_of(event) == Command::Quit
}

/// Whether `event` is of a kind the loop has no use for.
pub open spec fn is_noise(event: Event) -> bool {
    command_of(event) == Command::Ignore
}

/// Events change nothing but the state and the actor's position: the frame
/// counter, the presence of an actor, its image, footprint and speed are
/// as before, and a valid loop stays valid.
pub proof fn lemma_events_keep_the_rest<A>(start: LoopView<A>, events: Seq<Event>)
    ensures
        start.after_events(events).counter == start.counter,
        start.actor is None ==> start.after_events(events).actor is None,
        start.actor matches Some(before) ==> (start.after_events(events).actor matches Some(after)
            && after == before.moved_to(after.position.x, after.position.y)),
        start.valid() ==> start.after_events(events).valid(),
    decreases events.len(),
{
    if events.len() > 0 {
        lemma_events_keep_the_rest(start, events.drop_last());
    }
}

/// While the loop runs, each key-down of an arrow key is one step of the
/// actor in that key's direction.
pub proof fn lemma_key_downs_are_steps<A>(start: LoopView<A>, direction: Direction, count: nat)
    requires
        start.state == LoopState::Running,
        start.actor is Some,
    ensures
        start.after_events(key_downs(direction, count)) == (LoopView {
            actor: Some(start.actor->0.stepped_times(direction, count)),
            ..start
        }),
    decreases count,
{
    if count > 0 {
        let before = (count - 1) as nat;
        lemma_key_downs_are_steps(start, direction, before);
        assert(key_downs(direction, count).drop_last() =~= key_downs(direction, before));
    }
}

/// While the loop runs, a queue of arrow keys walks the actor along the
/// keys' directions and changes nothing else.
pub proof fn lemma_arrow_keys_are_steps<A>(start: LoopView<A>, directions: Seq<Direction>)
    requires
        start.state == LoopState::Running,
        start.actor is Some,
    ensures
        start.after_events(arrow_keys(directions)) == (LoopView {
            actor: Some(start.actor->0.stepped_along(directions)),
            ..start
        }),
    decreases directions.len(),
{
    if directions.len() > 0 {
        lemma_arrow_keys_are_steps(start, directions.drop_last());
        assert(arrow_keys(directions).drop_last() =~= arrow_keys(directions.drop_last()));
    }
}

/// Arrow keys may come in any order: two queues made of the same key-down
/// events leave a running loop in the same state, provided the actor stays
/// inside the coordinate range on both walks.
pub proof fn lemma_order_of_arrow_keys_is_free<A>(
    start: LoopView<A>,
    one: Seq<Direction>,
    other: Seq<Direction>,
)
    requires
        start.valid(),
        start.state == LoopState::Running,
        one.to_multiset() == other.to_multiset(),
        start.actor matches Some(actor) ==> actor.path_clear(one) && actor.path_clear(other),
    ensures
        start.after_events(arrow_keys(one)) == start.after_events(arrow_keys(other)),
{
    match start.actor {
        Some(actor) => {
            lemma_arrow_keys_are_steps(start, one);
            lemma_arrow_keys_are_steps(start, other);
            lemma_order_of_steps_is_free(actor, one, other);
        },
        None => {
            lemma_events_keep_the_rest(start, arrow_keys(one));
            lemma_events_keep_the_rest(start, arrow_keys(other));
            lemma_ends_only_on_quit(start, arrow_keys(one));
            lemma_ends_only_on_quit(start, arrow_keys(other));
        },
    }
}

/// Any number of key-down events of one arrow key moves the actor of a
/// running loop by exactly that number times its speed along the key's
/// axis, and by nothing along the other axis, provided the place it should
/// reach is inside the coordinate range. Nothing else about the loop
/// changes.
pub proof fn lemma_same_key_moves_exactly<A>(start: LoopView<A>, direction: Direction, count: nat)
    requires
        start.valid(),
        start.state == LoopState::Running,
        start.actor is Some,
        coord_in_range(
            start.actor->0.position.x + count * start.actor->0.stride_x(direction),
        ),
        coord_in_range(
            start.actor->0.position.y + count * start.actor->0.stride_y(direction),
        ),
    ensures
        start.after_events(key_downs(direction, count)) == (LoopView {
            actor: Some(
                start.actor->0.moved_to(
                    start.actor->0.position.x + count * start.actor->0.stride_x(direction),
                    start.actor->0.position.y + count * start.actor->0.stride_y(direction),
                ),
            ),
            ..start
        }),
{
    lemma_key_downs_are_steps(start, direction, count);
    lemma_repeated_steps_exact(start.actor->0, direction, count);
}

/// An arrow key and the opposite arrow key, pressed one after the other in
/// either order, leave a running loop exactly as it was, provided neither
/// step runs into an edge of the coordinate range.
pub proof fn lemma_opposite_keys_cancel<A>(start: LoopView<A>, direction: Direction)
    requires
        start.valid(),
        start.state == LoopState::Running,
        start.actor matches Some(actor) ==> {
            &&& coord_in_range(actor.position.x + actor.stride_x(direction))
            &&& coord_in_range(actor.position.x - actor.stride_x(direction))
            &&& coord_in_range(actor.position.y + actor.stride_y(direction))
            &&& coord_in_range(actor.position.y - actor.stride_y(direction))
        },
    ensures
        start.after_events(
            seq![
                Event::KeyDown(direction.key_of()),
                Event::KeyDown(direction.opposite_of().key_of()),
            ],
        ) == start,
        start.after_events(
            seq![
                Event::KeyDown(direction.opposite_of().key_of()),
                Event::KeyDown(direction.key_of()),
            ],
        ) == start,
{
    let there = Event::KeyDown(direction.key_of());
    let back = Event::KeyDown(direction.opposite_of().key_of());
    assert(seq![there, back].drop_last() =~= seq![there]);
    assert(seq![back, there].drop_last() =~= seq![back]);
    lemma_after_single_event(start, there);
    lemma_after_single_event(start, back);
    if start.actor is Some {
        lemma_opposite_steps_cancel(start.actor->0, direction);
    }
}

/// A quit signal or a cancel key anywhere in the queue ends the loop,
/// whatever else is queued, and what is queued behind it has no effect.
pub proof fn lemma_quit_ends_loop<A>(start: LoopView<A>, events: Seq<Event>, at: int)
    requires
        0 <= at < events.len(),
        ends_loop(events[at]),
    ensures
        start.after_events(events).state == LoopState::Terminated,
        start.after_events(events) == start.after_events(events.take(at + 1)),
{
    let upto = events.take(at + 1);
    let rest = events.skip(at + 1);
    assert(upto + rest =~= events);
    assert(upto.last() == events[at]);
    lemma_after_events_concat(start, upto, rest);
    lemma_terminated_stays(start.after_events(upto), rest);
}

/// A loop ends on a quit signal or a cancel key and on nothing else: after
/// a queue it has ended exactly if it had ended before or the queue holds
/// such an event.
pub proof fn lemma_ends_only_on_quit<A>(start: LoopView<A>, events: Seq<Event>)
    ensures
        start.after_events(events).state == LoopState::Terminated <==> (start.state
            == LoopState::Terminated || exists|at: int|
            0 <= at < events.len() && ends_loop(#[trigger] events[at])),
    decreases events.len(),
{
    if events.len() > 0 {
        let front = events.drop_last();
        lemma_ends_only_on_quit(start, front);
        if exists|at: int| 0 <= at < front.len() && ends_loop(#[trigger] front[at]) {
            let at = choose|at: int| 0 <= at < front.len() && ends_loop(#[trigger] front[at]);
            assert(ends_loop(events[at]));
        }
        if ends_loop(events.last()) {
            assert(ends_loop(events[events.len() - 1]));
        }
        if exists|at: int| 0 <= at < events.len() && ends_loop(#[trigger] events[at]) {
            let at = choose|at: int| 0 <= at < events.len() && ends_loop(#[trigger] events[at]);
            if at < front.len() {
                assert(ends_loop(front[at]));
            }
        }
    }
}

/// Events of kinds the loop has no use for leave it exactly as it was.
pub proof fn lemma_noise_changes_nothing<A>(start: LoopView<A>, events: Seq<Event>)
    requires
        forall|at: int| 0 <= at < events.len() ==> is_noise(#[trigger] events[at]),
    ensures
        start.after_events(events) == start,
    decreases events.len(),
{
    if events.len() > 0 {
        lemma_noise_changes_nothing(start, events.drop_last());
    }
}

/// Slipping an event of a kind the loop has no use for into a queue, at
/// any place, does not change what the queue does.
pub proof fn lemma_noise_can_be_dropped<A>(
    start: LoopView<A>,
    events: Seq<Event>,
    at: int,
    noise: Event,
)
    requires
        0 <= at <= events.len(),
        is_noise(noise),
    ensures
        start.after_events(events.insert(at, noise)) == start.after_events(events),
{
    let front = events.take(at);
    let back = events.skip(at);
    assert(front + back =~= events);
    assert((front + seq![noise]) + back =~= events.insert(at, noise));
    lemma_after_events_concat(start, front, back);
    lemma_after_events_concat(start, front + seq![noise], back);
    lemma_after_events_concat(start, front, seq![noise]);
    lemma_after_single_event(start.after_events(front), noise);
}

} // verus!
