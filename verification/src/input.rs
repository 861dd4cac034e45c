//! Keyboard movement bindings: which key drives each movement axis, the
//! pressed/held/released state of each binding, and the integer direction the
//! active bindings add up to.

use vstd::prelude::*;

verus! {

/// The keys a movement binding can be attached to.
#[derive(Clone, Copy, Debug, PartialEq, Eq, Structural, Hash)]
pub enum KeyCode {
    LShift,
    LControl,
    Left,
    Right,
    Up,
    Down,
    Escape,
    Space,
    W,
    A,
    S,
    D,
}

/// Whether a key event reports the key going down or up.
#[derive(Clone, Copy, Debug, PartialEq, Eq, Structural, Hash)]
pub enum ElementState {
    Pressed,
    Released,
}

/// One keyboard event: a key and whether it went down or up.
#[derive(Clone, Copy, Debug, PartialEq, Eq, Structural, Hash)]
pub struct KeyboardEvent {
    pub key: KeyCode,
    pub state: ElementState,
}

/// The state of one key binding.
#[derive(Clone, Copy, Debug, PartialEq, Eq, Structural, Hash)]
pub enum KeyState {
    Pressed,
    Held,
    Released,
}

impl KeyState {
    /// A binding drives its axis while its key is down: pressed or held.
    pub open spec fn spec_active(self) -> bool {
        self is Pressed || self is Held
    }

    /// Whether the binding currently drives its axis.
    pub fn active(&self) -> (b: bool)
        ensures
            b == self.spec_active(),
    {
        match self {
            Self::Pressed | Self::Held => true,
            Self::Released => false,
        }
    }

    /// Whether the key is held.
    pub fn held(&self) -> (b: bool)
        ensures
            b == (*self is Held),
    {
        *self == Self::Held
    }

    /// Whether the key was just pressed.
    pub fn pressed(&self) -> (b: bool)
        ensures
            b == (*self is Pressed),
    {
        *self == Self::Pressed
    }

    /// Whether the key is up.
    pub fn released(&self) -> (b: bool)
        ensures
            b == (*self is Released),
    {
        *self == Self::Released
    }

    /// Marks the key held.
    pub fn hold(&mut self)
        ensures
            *final(self) is Held,
    {
        *self = Self::Held;
    }

    /// Marks the key just pressed.
    pub fn press(&mut self)
        ensures
            *final(self) is Pressed,
    {
        *self = Self::Pressed;
    }

    /// Marks the key up.
    pub fn release(&mut self)
        ensures
            *final(self) is Released,
    {
        *self = Self::Released;
    }
}

/// The movement bindings: one `(key, state)` pair per direction.
#[derive(Clone, Copy, Debug)]
pub struct MovementBindings {
    pub up: (KeyCode, KeyState),
    pub down: (KeyCode, KeyState),
    pub left: (KeyCode, KeyState),
    pub right: (KeyCode, KeyState),
    pub front: (KeyCode, KeyState),
    pub back: (KeyCode, KeyState),
}

/// The default binding layout: shift and control for up and down, the arrow
/// keys for the four horizontal directions, every binding released.
pub open spec fn spec_default_bindings() -> MovementBindings {
    MovementBindings {
        up: (KeyCode::LShift, KeyState::Released),
        down: (KeyCode::LControl, KeyState::Released),
        left: (KeyCode::Left, KeyState::Released),
        right: (KeyCode::Right, KeyState::Released),
        front: (KeyCode::Up, KeyState::Released),
        back: (KeyCode::Down, KeyState::Released),
    }
}

impl Default for MovementBindings {
    /// The default binding layout, every binding released.
    fn default() -> (r: Self)
        ensures
            r == spec_default_bindings(),
    {
        Self {
            up: (KeyCode::LShift, KeyState::Released),
            down: (KeyCode::LControl, KeyState::Released),
            left: (KeyCode::Left, KeyState::Released),
            right: (KeyCode::Right, KeyState::Released),
            front: (KeyCode::Up, KeyState::Released),
            back: (KeyCode::Down, KeyState::Released),
        }
    }
}

/// One binding after a release of `key`: released if the key matches, else
/// unchanged.
pub open spec fn release_binding(b: (KeyCode, KeyState), key: KeyCode) -> (KeyCode, KeyState) {
    if b.0 == key {
        (b.0, KeyState::Released)
    } else {
        b
    }
}

/// One binding after a press of `key`: pressed if the key matches, else
/// unchanged.
pub open spec fn press_binding(b: (KeyCode, KeyState), key: KeyCode) -> (KeyCode, KeyState) {
    if b.0 == key {
        (b.0, KeyState::Pressed)
    } else {
        b
    }
}

/// All six bindings after a release of `key`.
pub open spec fn spec_released(m: MovementBindings, key: KeyCode) -> MovementBindings {
    MovementBindings {
        up: release_binding(m.up, key),
        down: release_binding(m.down, key),
        left: release_binding(m.left, key),
        right: release_binding(m.right, key),
        front: release_binding(m.front, key),
        back: release_binding(m.back, key),
    }
}

/// All six bindings after a press of `key`.
pub open spec fn spec_pressed(m: MovementBindings, key: KeyCode) -> MovementBindings {
    MovementBindings {
        up: press_binding(m.up, key),
        down: press_binding(m.down, key),
        left: press_binding(m.left, key),
        right: press_binding(m.right, key),
        front: press_binding(m.front, key),
        back: press_binding(m.back, key),
    }
}

/// The integer direction, per axis in `{-1, 0, 1}`, that a set of bindings
/// adds up to. Callers that need a unit vector normalize this with their own
/// vector math; the decision which axes move is settled here.
#[derive(Clone, Copy, Debug, PartialEq, Eq, Structural, Hash)]
pub struct Direction {
    pub x: i8,
    pub y: i8,
    pub z: i8,
}

/// One signed axis: `+1` for the positive binding, `-1` for the negative one,
/// their sum when both are active.
pub open spec fn spec_axis(pos: bool, neg: bool) -> int {
    (if pos {
        1int
    } else {
        0int
    }) - (if neg {
        1int
    } else {
        0int
    })
}

/// The direction a set of bindings adds up to, in the right-handed layout:
/// right and left drive `x`, up and down drive `y`, back and front drive `z`
/// (moving front goes towards negative `z`).
pub open spec fn spec_dir(m: MovementBindings) -> Direction {
    Direction {
        x: spec_axis(m.right.1.spec_active(), m.left.1.spec_active()) as i8,
        y: spec_axis(m.up.1.spec_active(), m.down.1.spec_active()) as i8,
        z: spec_axis(m.back.1.spec_active(), m.front.1.spec_active()) as i8,
    }
}

impl MovementBindings {
    /// Bindings over the six given keys, every binding released.
    pub fn new(
        up: KeyCode,
        down: KeyCode,
        left: KeyCode,
        right: KeyCode,
        front: KeyCode,
        back: KeyCode,
    ) -> (r: Self)
        ensures
            r == (MovementBindings {
                up: (up, KeyState::Released),
                down: (down, KeyState::Released),
                left: (left, KeyState::Released),
                right: (right, KeyState::Released),
                front: (front, KeyState::Released),
                back: (back, KeyState::Released),
            }),
    {
        Self {
            up: (up, KeyState::Released),
            down: (down, KeyState::Released),
            left: (left, KeyState::Released),
            right: (right, KeyState::Released),
            front: (front, KeyState::Released),
            back: (back, KeyState::Released),
        }
    }

    /// Marks every binding attached to `key` released.
    pub fn released(&mut self, key: KeyCode)
        ensures
            *final(self) == spec_released(*old(self), key),
    {
        if key == self.up.0 {
            self.up.1.release();
        }
        if key == self.down.0 {
            self.down.1.release();
        }
        if key == self.left.0 {
            self.left.1.release();
        }
        if key == self.right.0 {
            self.right.1.release();
        }
        if key == self.front.0 {
            self.front.1.release();
        }
        if key == self.back.0 {
            self.back.1.release();
        }
    }

    /// Marks every binding attached to `key` pressed.
    pub fn pressed(&mut self, key: KeyCode)
        ensures
            *final(self) == spec_pressed(*old(self), key),
    {
        if key == self.up.0 {
            self.up.1.press();
        }
        if key == self.down.0 {
            self.down.1.press();
        }
        if key == self.left.0 {
            self.left.1.press();
        }
        if key == self.right.0 {
            self.right.1.press();
        }
        if key == self.front.0 {
            self.front.1.press();
        }
        if key == self.back.0 {
            self.back.1.press();
        }
    }

    /// The integer direction the currently active bindings add up to.
    pub fn dir(&self) -> (d: Direction)
        ensures
            d == spec_dir(*self),
    {
        let mut x: i8 = 0;
        let mut y: i8 = 0;
        let mut z: i8 = 0;

        // Right-handed coordinate system: the front binding moves towards
        // negative z.
        if self.front.1.active() {
            z = z - 1;
        }
        if self.back.1.active() {
            z = z + 1;
        }
        if self.up.1.active() {
            y = y + 1;
        }
        if self.down.1.active() {
            y = y - 1;
        }
        if self.right.1.active() {
            x = x + 1;
        }
        if self.left.1.active() {
            x = x - 1;
        }

        Direction { x, y, z }
    }
}

/// The bindings after the first `n` events of `events` have been applied in
/// order: a press marks matching bindings pressed, a release marks them
/// released.
pub open spec fn apply_events(m: MovementBindings, events: Seq<KeyboardEvent>, n: int) -> MovementBindings
    decreases n,
{
    if n <= 0 {
        m
    } else {
        let prev = apply_events(m, events, n - 1);
        match events[n - 1].state {
            ElementState::Pressed => spec_pressed(prev, events[n - 1].key),
            ElementState::Released => spec_released(prev, events[n - 1].key),
        }
    }
}

/// Routes a batch of keyboard events into the movement bindings, in order,
/// and returns the integer direction the bindings then add up to.
pub fn input(movement_binding: &mut MovementBindings, events: &Vec<KeyboardEvent>) -> (d: Direction)
    ensures
        *final(movement_binding) == apply_events(*old(movement_binding), events@, events@.len() as int),
        d == spec_dir(*final(movement_binding)),
{
    let mut i: usize = 0;
    while i < events.len()
        invariant
            i <= events.len(),
            *movement_binding == apply_events(*old(movement_binding), events@, i as int),
        decreases events.len() - i,
    {
        let event = events[i];
        match event.state {
            ElementState::Released => movement_binding.released(event.key),
            ElementState::Pressed => movement_binding.pressed(event.key),
        }
        i = i + 1;
    }

    movement_binding.dir()
}

} // verus!
