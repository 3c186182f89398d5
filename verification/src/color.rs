//! Background colours: the fixed one behind a sprite and the one that
//! cycles with the frame counter when there is no sprite.

use vstd::prelude::*;

verus! {

/// An opaque colour.
#[derive(Clone, Copy, Debug, PartialEq, Eq, Structural)]
pub struct Color {
    pub r: u8,
    pub g: u8,
    pub b: u8,
}

/// Number of values the frame counter runs through before it starts again.
pub const CYCLE_LENGTH: u8 = 255;

/// Green channel of every colour of the cycle.
pub const CYCLE_GREEN: u8 = 64;

/// The background behind a sprite.
pub open spec fn backdrop_of() -> Color {
    Color { r: 136, g: 192, b: 208 }
}

/// The background of the frame whose counter is `counter`: red rises with
/// the counter, blue falls with it, green stays put.
pub open spec fn cycle_color_of(counter: u8) -> Color {
    Color { r: counter, g: CYCLE_GREEN, b: (255 - counter) as u8 }
}

/// The counter of the frame after the one with `counter`:
/// `0, 1, .., 254, 0, ..`.
pub open spec fn next_counter_of(counter: u8) -> u8 {
    ((counter + 1) % (CYCLE_LENGTH as int)) as u8
}

/// The background behind a sprite.
pub fn backdrop() -> (c: Color)
    ensures
        c == backdrop_of(),
{
    Color { r: 136, g: 192, b: 208 }
}

/// The background of the frame whose counter is `counter`.
pub fn cycle_color(counter: u8) -> (c: Color)
    ensures
        c == cycle_color_of(counter),
        c.r == counter,
        c.g == 64,
        c.b == 255 - counter,
{
    Color { r: counter, g: CYCLE_GREEN, b: 255 - counter }
}

/// The counter of the next frame.
pub fn next_counter(counter: u8) -> (next: u8)
    ensures
        next == next_counter_of(counter),
        next == (counter + 1) % 255,
        next < CYCLE_LENGTH,
{
    let wide: u16 = (counter as u16 + 1) % (CYCLE_LENGTH as u16);
    wide as u8
}

} // verus!
