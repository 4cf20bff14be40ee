//! Key state of the free-flying camera and the movement direction it asks for.
use vstd::prelude::*;

verus! {

/// The keys that move the camera.
#[derive(Clone, Copy, Debug, PartialEq, Eq, Structural)]
pub enum MoveKey {
    /// W
    Forward,
    /// S
    Backward,
    /// A
    Left,
    /// D
    Right,
    /// Space
    Up,
    /// C
    Down,
}

/// Which movement keys are held down.
#[derive(Clone, Copy, Debug, PartialEq, Eq, Structural)]
pub struct MovementKeys {
    pub forward: bool,
    pub backward: bool,
    pub left: bool,
    pub right: bool,
    pub up: bool,
    pub down: bool,
}

/// +1 for the first key alone, -1 for the second alone, 0 for both or neither.
pub open spec fn axis_spec(positive: bool, negative: bool) -> int {
    (if positive {
        1int
    } else {
        0int
    }) - (if negative {
        1int
    } else {
        0int
    })
}

/// Direction along one axis from a pair of opposing keys.
pub fn get_key_dir(positive: bool, negative: bool) -> (r: i8)
    ensures
        r == axis_spec(positive, negative),
{
    let p: i8 = if positive {
        1
    } else {
        0
    };
    let n: i8 = if negative {
        1
    } else {
        0
    };
    p - n
}

impl MovementKeys {
    pub fn new() -> (r: MovementKeys)
        ensures
            !r.forward && !r.backward && !r.left && !r.right && !r.up && !r.down,
    {
        MovementKeys {
            forward: false,
            backward: false,
            left: false,
            right: false,
            up: false,
            down: false,
        }
    }

    /// Records a key being pressed (`true`) or released; the other keys keep their state.
    pub fn set(&mut self, key: MoveKey, pressed: bool)
        ensures
            *final(self) == (match key {
                MoveKey::Forward => MovementKeys { forward: pressed, ..*old(self) },
                MoveKey::Backward => MovementKeys { backward: pressed, ..*old(self) },
                MoveKey::Left => MovementKeys { left: pressed, ..*old(self) },
                MoveKey::Right => MovementKeys { right: pressed, ..*old(self) },
                MoveKey::Up => MovementKeys { up: pressed, ..*old(self) },
                MoveKey::Down => MovementKeys { down: pressed, ..*old(self) },
            }),
    {
        match key {
            MoveKey::Forward => self.forward = pressed,
            MoveKey::Backward => self.backward = pressed,
            MoveKey::Left => self.left = pressed,
            MoveKey::Right => self.right = pressed,
            MoveKey::Up => self.up = pressed,
            MoveKey::Down => self.down = pressed,
        }
    }

    /// Movement in camera terms `[x, y, z]`: x is left minus right, y is up
    /// minus down, z is forward minus backward.
    pub fn direction(&self) -> (r: [i8; 3])
        ensures
            r[0] == axis_spec(self.left, self.right),
            r[1] == axis_spec(self.up, self.down),
            r[2] == axis_spec(self.forward, self.backward),
    {
        [
            get_key_dir(self.left, self.right),
            get_key_dir(self.up, self.down),
            get_key_dir(self.forward, self.backward),
        ]
    }
}

} // verus!
