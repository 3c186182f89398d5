use frame_loop::actor::{Actor, START_HEIGHT, START_SPEED, START_WIDTH, START_X, START_Y};
use frame_loop::color::Color;
use frame_loop::frame::{frame_pause_nanos, FrameLoop, LoopState, NANOS_PER_SECOND, TARGET_FPS};
use frame_loop::geometry::{Point, Rect, COORD_MAX, COORD_MIN};
use frame_loop::input::{command_for, Command, Direction, Event, Key};

fn sprite_loop() -> FrameLoop<&'static str> {
    FrameLoop::with_actor(Actor::at_start("reaper"))
}

fn position(frame_loop: &FrameLoop<&'static str>) -> Point {
    frame_loop.actor().expect("the loop has an actor").position()
}

#[test]
fn dispatch_table() {
    assert_eq!(command_for(Event::Quit), Command::Quit);
    assert_eq!(command_for(Event::KeyDown(Key::Escape)), Command::Quit);
    assert_eq!(command_for(Event::KeyDown(Key::Left)), Command::Step(Direction::Left));
    assert_eq!(command_for(Event::KeyDown(Key::Right)), Command::Step(Direction::Right));
    assert_eq!(command_for(Event::KeyDown(Key::Up)), Command::Step(Direction::Up));
    assert_eq!(command_for(Event::KeyDown(Key::Down)), Command::Step(Direction::Down));
    assert_eq!(command_for(Event::KeyDown(Key::Other)), Command::Ignore);
    assert_eq!(command_for(Event::Other), Command::Ignore);
}

#[test]
fn actor_starts_with_the_fixed_parameters() {
    assert_eq!((START_X, START_Y), (0, 0));
    assert_eq!((START_WIDTH, START_HEIGHT), (26, 36));
    assert_eq!(START_SPEED, 10);
    let actor = Actor::at_start(7u32);
    assert_eq!(*actor.asset(), 7);
    assert_eq!(actor.position(), Point::new(0, 0));
    assert_eq!(actor.footprint(), Rect::new(0, 0, 26, 36));
    assert_eq!(actor.speed(), 10);
}

#[test]
fn actor_keeps_its_parts() {
    let actor = Actor::new(String::from("image"), Point::new(-3, 8), Rect::new(26, 0, 26, 36), 4);
    assert_eq!(actor.asset(), "image");
    assert_eq!(actor.position(), Point::new(-3, 8));
    assert_eq!(actor.footprint(), Rect::new(26, 0, 26, 36));
    assert_eq!(actor.speed(), 4);
}

#[test]
fn each_direction_steps_along_its_axis() {
    let mut actor = Actor::at_start(());
    actor.step(Direction::Left);
    assert_eq!(actor.position(), Point::new(-10, 0));
    actor.step(Direction::Up);
    assert_eq!(actor.position(), Point::new(-10, -10));
    actor.step(Direction::Right);
    assert_eq!(actor.position(), Point::new(0, -10));
    actor.step(Direction::Down);
    assert_eq!(actor.position(), Point::new(0, 0));
    assert_eq!(actor.footprint(), Rect::new(0, 0, 26, 36));
    assert_eq!(actor.speed(), 10);
}

#[test]
fn right_then_down() {
    let mut frame_loop = sprite_loop();
    assert_eq!(position(&frame_loop), Point::new(0, 0));
    assert_eq!(frame_loop.handle_event(Event::KeyDown(Key::Right)), LoopState::Running);
    assert_eq!(frame_loop.handle_event(Event::KeyDown(Key::Down)), LoopState::Running);
    assert_eq!(position(&frame_loop), Point::new(10, 10));
}

#[test]
fn right_then_down_in_one_queue() {
    let mut frame_loop = sprite_loop();
    let state = frame_loop.handle_events(&[Event::KeyDown(Key::Right), Event::KeyDown(Key::Down)]);
    assert_eq!(state, LoopState::Running);
    assert_eq!(position(&frame_loop), Point::new(10, 10));
}

#[test]
fn repeated_key_moves_by_count_times_speed() {
    let keys = [
        (Key::Left, Point::new(-70, 0)),
        (Key::Right, Point::new(70, 0)),
        (Key::Up, Point::new(0, -70)),
        (Key::Down, Point::new(0, 70)),
    ];
    for (key, expected) in keys {
        let mut frame_loop = sprite_loop();
        let queue = vec![Event::KeyDown(key); 7];
        assert_eq!(frame_loop.handle_events(&queue), LoopState::Running);
        assert_eq!(position(&frame_loop), expected);
    }
    let mut still = sprite_loop();
    assert_eq!(still.handle_events(&[]), LoopState::Running);
    assert_eq!(position(&still), Point::new(0, 0));
}

#[test]
fn repeated_key_with_other_speeds() {
    let mut slow = FrameLoop::with_actor(Actor::new((), Point::new(5, -5), Rect::new(0, 0, 1, 1), 3));
    slow.handle_events(&vec![Event::KeyDown(Key::Up); 1000]);
    assert_eq!(slow.actor().unwrap().position(), Point::new(5, -3005));
    let mut backwards = FrameLoop::with_actor(Actor::new((), Point::new(0, 0), Rect::new(0, 0, 1, 1), -4));
    backwards.handle_events(&vec![Event::KeyDown(Key::Right); 3]);
    assert_eq!(backwards.actor().unwrap().position(), Point::new(-12, 0));
    let mut idle = FrameLoop::with_actor(Actor::new((), Point::new(9, 9), Rect::new(0, 0, 1, 1), 0));
    idle.handle_events(&vec![Event::KeyDown(Key::Left); 3]);
    assert_eq!(idle.actor().unwrap().position(), Point::new(9, 9));
}

#[test]
fn opposite_keys_cancel_in_either_order() {
    let pairs = [(Key::Left, Key::Right), (Key::Right, Key::Left), (Key::Up, Key::Down), (Key::Down, Key::Up)];
    for (there, back) in pairs {
        let mut frame_loop = FrameLoop::with_actor(Actor::new((), Point::new(33, -21), Rect::new(0, 0, 26, 36), 10));
        let state = frame_loop.handle_events(&[Event::KeyDown(there), Event::KeyDown(back)]);
        assert_eq!(state, LoopState::Running);
        assert_eq!(frame_loop.actor().unwrap().position(), Point::new(33, -21));
    }
}

#[test]
fn order_of_keys_does_not_matter_away_from_the_edges() {
    let orders = [
        [Key::Left, Key::Right, Key::Right, Key::Up],
        [Key::Right, Key::Up, Key::Left, Key::Right],
        [Key::Up, Key::Right, Key::Right, Key::Left],
    ];
    for order in orders {
        let mut frame_loop = sprite_loop();
        for key in order {
            frame_loop.handle_event(Event::KeyDown(key));
        }
        assert_eq!(position(&frame_loop), Point::new(10, -10));
    }
}

#[test]
fn steps_stop_at_the_edge_of_the_range() {
    let mut actor = Actor::new((), Point::new(COORD_MAX - 5, COORD_MIN + 5), Rect::new(0, 0, 26, 36), 10);
    actor.step(Direction::Right);
    assert_eq!(actor.position(), Point::new(COORD_MAX, COORD_MIN + 5));
    actor.step(Direction::Left);
    assert_eq!(actor.position(), Point::new(COORD_MAX - 10, COORD_MIN + 5));
    actor.step(Direction::Up);
    assert_eq!(actor.position(), Point::new(COORD_MAX - 10, COORD_MIN));
    actor.step(Direction::Down);
    assert_eq!(actor.position(), Point::new(COORD_MAX - 10, COORD_MIN + 10));
}

#[test]
fn extreme_speeds_step_to_the_edges() {
    let mut lowest = Actor::new((), Point::new(0, 0), Rect::new(0, 0, 1, 1), i32::MIN);
    lowest.step(Direction::Left);
    assert_eq!(lowest.position(), Point::new(COORD_MAX, 0));
    lowest.step(Direction::Right);
    assert_eq!(lowest.position(), Point::new(COORD_MIN, 0));
    lowest.step(Direction::Up);
    assert_eq!(lowest.position(), Point::new(COORD_MIN, COORD_MAX));
    lowest.step(Direction::Down);
    assert_eq!(lowest.position(), Point::new(COORD_MIN, COORD_MIN));
    let mut highest = Actor::new((), Point::new(0, 0), Rect::new(0, 0, 1, 1), i32::MAX);
    highest.step(Direction::Left);
    assert_eq!(highest.position(), Point::new(COORD_MIN, 0));
    highest.step(Direction::Down);
    assert_eq!(highest.position(), Point::new(COORD_MIN, COORD_MAX));
}

#[test]
fn quit_signal_ends_the_loop() {
    let mut frame_loop = sprite_loop();
    assert_eq!(frame_loop.state(), LoopState::Running);
    assert_eq!(frame_loop.handle_event(Event::Quit), LoopState::Terminated);
    assert_eq!(frame_loop.state(), LoopState::Terminated);
    assert_eq!(position(&frame_loop), Point::new(0, 0));
}

#[test]
fn cancel_key_ends_the_loop() {
    let mut frame_loop = sprite_loop();
    assert_eq!(frame_loop.handle_event(Event::KeyDown(Key::Escape)), LoopState::Terminated);
    assert_eq!(frame_loop.state(), LoopState::Terminated);
}

#[test]
fn quit_anywhere_in_the_queue_ends_the_loop() {
    let noise = [Event::KeyDown(Key::Right), Event::Other, Event::KeyDown(Key::Other), Event::KeyDown(Key::Up)];
    for quit in [Event::Quit, Event::KeyDown(Key::Escape)] {
        for at in 0..=noise.len() {
            let mut queue = noise.to_vec();
            queue.insert(at, quit);
            let mut frame_loop = sprite_loop();
            assert_eq!(frame_loop.handle_events(&queue), LoopState::Terminated);
            assert_eq!(frame_loop.state(), LoopState::Terminated);
        }
    }
}

#[test]
fn events_behind_a_quit_have_no_effect() {
    let mut frame_loop = sprite_loop();
    let queue = [Event::KeyDown(Key::Right), Event::Quit, Event::KeyDown(Key::Right), Event::KeyDown(Key::Down)];
    assert_eq!(frame_loop.handle_events(&queue), LoopState::Terminated);
    assert_eq!(position(&frame_loop), Point::new(10, 0));
}

#[test]
fn ended_loop_stays_ended() {
    let mut frame_loop = sprite_loop();
    frame_loop.handle_event(Event::KeyDown(Key::Escape));
    assert_eq!(frame_loop.handle_event(Event::KeyDown(Key::Left)), LoopState::Terminated);
    assert_eq!(frame_loop.handle_event(Event::Other), LoopState::Terminated);
    assert_eq!(frame_loop.handle_events(&[Event::KeyDown(Key::Down)]), LoopState::Terminated);
    assert_eq!(frame_loop.handle_events(&[]), LoopState::Terminated);
    assert_eq!(position(&frame_loop), Point::new(0, 0));
}

#[test]
fn noise_events_change_nothing() {
    let mut frame_loop = FrameLoop::with_actor(Actor::new(5u8, Point::new(12, 34), Rect::new(0, 0, 26, 36), 10));
    let queue = [Event::Other, Event::KeyDown(Key::Other), Event::Other];
    assert_eq!(frame_loop.handle_events(&queue), LoopState::Running);
    assert_eq!(frame_loop.handle_event(Event::Other), LoopState::Running);
    assert_eq!(frame_loop.handle_event(Event::KeyDown(Key::Other)), LoopState::Running);
    let actor = frame_loop.actor().unwrap();
    assert_eq!(actor.position(), Point::new(12, 34));
    assert_eq!(actor.footprint(), Rect::new(0, 0, 26, 36));
    assert_eq!(actor.speed(), 10);
    assert_eq!(*actor.asset(), 5);
    assert_eq!(frame_loop.frame_counter(), 0);
}

#[test]
fn noise_between_keys_changes_nothing() {
    let mut plain = sprite_loop();
    plain.handle_events(&[Event::KeyDown(Key::Right), Event::KeyDown(Key::Down)]);
    let mut noisy = sprite_loop();
    noisy.handle_events(&[
        Event::Other,
        Event::KeyDown(Key::Right),
        Event::KeyDown(Key::Other),
        Event::KeyDown(Key::Down),
        Event::Other,
    ]);
    assert_eq!(position(&noisy), position(&plain));
    assert_eq!(noisy.state(), plain.state());
}

#[test]
fn loop_with_an_actor_has_the_fixed_backdrop() {
    let mut frame_loop = sprite_loop();
    assert_eq!(frame_loop.background(), Color { r: 136, g: 192, b: 208 });
    frame_loop.end_frame();
    frame_loop.handle_event(Event::KeyDown(Key::Left));
    assert_eq!(frame_loop.background(), Color { r: 136, g: 192, b: 208 });
}

#[test]
fn loop_with_an_actor_places_its_sprite() {
    let mut frame_loop = sprite_loop();
    frame_loop.handle_events(&[Event::KeyDown(Key::Right), Event::KeyDown(Key::Down)]);
    let placement = frame_loop.placement(1280, 720).expect("there is a sprite to draw");
    assert_eq!(placement.source, Rect::new(0, 0, 26, 36));
    assert_eq!(placement.target, Rect::new(637, 352, 26, 36));
    assert_eq!(placement.target.center(), Point::new(650, 370));
    let direct = frame_loop.actor().unwrap().placement(1280, 720);
    assert_eq!(direct, placement);
}

#[test]
fn placement_follows_the_surface_size() {
    let frame_loop = sprite_loop();
    let small = frame_loop.placement(640, 480).unwrap();
    assert_eq!(small.target, Rect::new(307, 222, 26, 36));
    let large = frame_loop.placement(1920, 1080).unwrap();
    assert_eq!(large.target, Rect::new(947, 522, 26, 36));
}

#[test]
fn loop_without_an_actor_cycles_its_background() {
    let mut frame_loop: FrameLoop<()> = FrameLoop::color_cycle();
    assert!(frame_loop.actor().is_none());
    assert!(frame_loop.placement(1280, 720).is_none());
    for round in 0..2 {
        for i in 0..=254u8 {
            assert_eq!(frame_loop.frame_counter(), i, "round {}", round);
            assert_eq!(frame_loop.background(), Color { r: i, g: 64, b: 255 - i });
            frame_loop.end_frame();
        }
    }
    assert_eq!(frame_loop.frame_counter(), 0);
    assert_eq!(frame_loop.state(), LoopState::Running);
}

#[test]
fn loop_without_an_actor_ignores_arrow_keys_and_still_quits() {
    let mut frame_loop: FrameLoop<()> = FrameLoop::color_cycle();
    frame_loop.end_frame();
    let queue = [Event::KeyDown(Key::Left), Event::KeyDown(Key::Down), Event::Other];
    assert_eq!(frame_loop.handle_events(&queue), LoopState::Running);
    assert!(frame_loop.actor().is_none());
    assert_eq!(frame_loop.frame_counter(), 1);
    assert_eq!(frame_loop.handle_event(Event::KeyDown(Key::Escape)), LoopState::Terminated);
    let mut other: FrameLoop<()> = FrameLoop::color_cycle();
    assert_eq!(other.handle_events(&[Event::Other, Event::Quit]), LoopState::Terminated);
}

#[test]
fn end_frame_leaves_state_and_actor_alone() {
    let mut frame_loop = sprite_loop();
    frame_loop.handle_event(Event::KeyDown(Key::Right));
    frame_loop.end_frame();
    assert_eq!(frame_loop.frame_counter(), 1);
    assert_eq!(frame_loop.state(), LoopState::Running);
    assert_eq!(position(&frame_loop), Point::new(10, 0));
    frame_loop.handle_event(Event::Quit);
    frame_loop.end_frame();
    assert_eq!(frame_loop.state(), LoopState::Terminated);
}

#[test]
fn pause_is_a_sixtieth_of_a_second() {
    assert_eq!(TARGET_FPS, 60);
    assert_eq!(NANOS_PER_SECOND, 1_000_000_000);
    assert_eq!(frame_pause_nanos(), 16_666_666);
    assert_eq!(frame_pause_nanos(), 1_000_000_000u32 / 60);
}
