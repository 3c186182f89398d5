//! Input events and what the loop does with each of them.

use vstd::prelude::*;

verus! {

/// The keys the loop tells apart. Every other key is `Other`.
#[derive(Clone, Copy, Debug, PartialEq, Eq, Structural)]
pub enum Key {
    /// The cancel key.
    Escape,
    Left,
    Right,
    Up,
    Down,
    Other,
}

/// One input event as the input source reports it.
#[derive(Clone, Copy, Debug, PartialEq, Eq, Structural)]
pub enum Event {
    /// The user asked to close the program.
    Quit,
    /// A key went down, or repeated while held.
    KeyDown(Key),
    /// Anything else.
    Other,
}

/// One of the four ways a sprite can step.
#[derive(Clone, Copy, Debug, PartialEq, Eq, Structural)]
pub enum Direction {
    Left,
    Right,
    Up,
    Down,
}

/// What an event asks of the loop.
#[derive(Clone, Copy, Debug, PartialEq, Eq, Structural)]
pub enum Command {
    /// End the loop.
    Quit,
    /// Move the sprite one step.
    Step(Direction),
    /// Nothing.
    Ignore,
}

impl Direction {
    /// The direction that undoes a step in this one.
    pub open spec fn opposite_of(self) -> Direction {
        match self {
            Direction::Left => Direction::Right,
            Direction::Right => Direction::Left,
            Direction::Up => Direction::Down,
            Direction::Down => Direction::Up,
        }
    }

    /// The key that steps in this direction.
    pub open spec fn key_of(self) -> Key {
        match self {
            Direction::Left => Key::Left,
            Direction::Right => Key::Right,
            Direction::Up => Key::Up,
            Direction::Down => Key::Down,
        }
    }
}

/// The dispatch table: the quit signal and the cancel key end the loop, the
/// four arrow keys step, and nothing else has any effect.
pub open spec fn command_of(event: Event) -> Command {
    match event {
        Event::Quit => Command::Quit,
        Event::KeyDown(Key::Escape) => Command::Quit,
        Event::KeyDown(Key::Left) => Command::Step(Direction::Left),
        Event::KeyDown(Key::Right) => Command::Step(Direction::Right),
        Event::KeyDown(Key::Up) => Command::Step(Direction::Up),
        Event::KeyDown(Key::Down) => Command::Step(Direction::Down),
        Event::KeyDown(Key::Other) => Command::Ignore,
        Event::Other => Command::Ignore,
    }
}

/// What `event` asks of the loop.
pub fn command_for(event: Event) -> (c: Command)
    ensures
        c == command_of(event),
{
    match event {
        Event::Quit => Command::Quit,
        Event::KeyDown(key) => match key {
            Key::Escape => Command::Quit,
            Key::Left => Command::Step(Direction::Left),
            Key::Right => Command::Step(Direction::Right),
            Key::Up => Command::Step(Direction::Up),
            Key::Down => Command::Step(Direction::Down),
            Key::Other => Command::Ignore,
        },
        Event::Other => Command::Ignore,
    }
}

} // verus!
