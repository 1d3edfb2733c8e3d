use vstd::prelude::*;

verus! {

/// One of the four cardinal movement directions of the snake.
#[derive(PartialEq, Eq, Structural, Clone, Copy, Debug)]
pub enum Control {
    UP,
    DOWN,
    LEFT,
    RIGHT,
}

/// The direction that a recognized input character maps to; unrecognized
/// characters map to `None` and are ignored by the caller.
pub open spec fn control_of_char(c: char) -> Option<Control> {
    if c == 'w' || c == 'i' {
        Some(Control::UP)
    } else if c == 'a' || c == 'j' {
        Some(Control::LEFT)
    } else if c == 's' || c == 'k' {
        Some(Control::DOWN)
    } else if c == 'd' || c == 'l' {
        Some(Control::RIGHT)
    } else {
        None
    }
}

/// The direction opposite to `control` (up and down, left and right swap).
pub open spec fn opposite_of(control: Control) -> Control {
    match control {
        Control::UP => Control::DOWN,
        Control::DOWN => Control::UP,
        Control::RIGHT => Control::LEFT,
        Control::LEFT => Control::RIGHT,
    }
}

impl Control {
    /// Decode a raw input character to a direction, or `None` for any
    /// character that is not a recognized movement key.
    pub fn from(c: char) -> (r: Option<Control>)
        ensures
            r == control_of_char(c),
    {
        match c {
            'w' | 'i' => Some(Control::UP),
            'a' | 'j' => Some(Control::LEFT),
            's' | 'k' => Some(Control::DOWN),
            'd' | 'l' => Some(Control::RIGHT),
            _ => None,
        }
    }

    /// The direction opposite to the given one.
    pub fn opposite(control: Control) -> (r: Control)
        ensures
            r == opposite_of(control),
    {
        match control {
            Control::UP => Control::DOWN,
            Control::DOWN => Control::UP,
            Control::RIGHT => Control::LEFT,
            Control::LEFT => Control::RIGHT,
        }
    }
}

} // verus!
