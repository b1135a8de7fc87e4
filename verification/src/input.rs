//! Keys as the rules see them, and the heading that held keys give the avatar.

use vstd::prelude::*;

verus! {

/// A key, reduced to the ones that some scene reacts to.
#[derive(Clone, Copy, Debug, PartialEq, Eq, Structural)]
pub enum Key {
    W,
    A,
    S,
    D,
    Space,
    R,
    Q,
    Escape,
    Other,
}

impl Key {
    /// Movement keys start a run from the title screen.
    pub open spec fn starts_run(self) -> bool {
        self == Key::W || self == Key::A || self == Key::S || self == Key::D || self == Key::Space
    }

    /// Keys that ask the host to shut down.
    pub open spec fn quits(self) -> bool {
        self == Key::Q || self == Key::Escape
    }

    pub fn is_start(self) -> (b: bool)
        ensures
            b == self.starts_run(),
    {
        match self {
            Key::W | Key::A | Key::S | Key::D | Key::Space => true,
            _ => false,
        }
    }

    pub fn is_quit(self) -> (b: bool)
        ensures
            b == self.quits(),
    {
        match self {
            Key::Q | Key::Escape => true,
            _ => false,
        }
    }
}

/// The four directional keys as they are held at one tick.
#[derive(Clone, Copy, Debug, PartialEq, Eq, Structural)]
pub struct MoveKeys {
    pub up: bool,
    pub down: bool,
    pub left: bool,
    pub right: bool,
}

/// Sum of the unit steps of the held keys; `y` grows downwards.
#[derive(Clone, Copy, Debug, PartialEq, Eq, Structural)]
pub struct Heading {
    pub x: i8,
    pub y: i8,
}

pub open spec fn axis(negative: bool, positive: bool) -> int {
    (if positive { 1int } else { 0int }) - (if negative { 1int } else { 0int })
}

impl MoveKeys {
    pub open spec fn heading(self) -> Heading {
        Heading { x: axis(self.left, self.right) as i8, y: axis(self.up, self.down) as i8 }
    }

    /// Opposite keys cancel; the avatar moves iff the result is not at rest.
    pub fn direction(&self) -> (h: Heading)
        ensures
            h == self.heading(),
            -1 <= h.x <= 1,
            -1 <= h.y <= 1,
            h.x == axis(self.left, self.right),
            h.y == axis(self.up, self.down),
    {
        let mut x: i8 = 0;
        let mut y: i8 = 0;
        if self.up {
            y = y - 1;
        }
        if self.down {
            y = y + 1;
        }
        if self.left {
            x = x - 1;
        }
        if self.right {
            x = x + 1;
        }
        Heading { x, y }
    }
}

impl Heading {
    pub open spec fn at_rest(self) -> bool {
        self.x == 0 && self.y == 0
    }

    pub fn is_zero(&self) -> (b: bool)
        ensures
            b == self.at_rest(),
    {
        self.x == 0 && self.y == 0
    }
}

} // verus!
