//! The input accumulator: which movement keys are held, and the pointer and
//! wheel movement that arrived since the camera last moved.

use crate::scalar::{neg, negate, ZERO};
use vstd::prelude::*;

verus! {

/// The pattern of `100.0`: the pixels that one line of wheel movement counts
/// for. A wheel that reports lines is scaled by this before
/// [`Controller::process_scroll`] takes the movement.
pub const PIXELS_PER_LINE: u32 = 0x42c8_0000;

/// The keys that the accumulator tells apart.
#[derive(Clone, Copy, Debug, PartialEq, Eq, Structural)]
pub enum KeyCode {
    KeyW,
    KeyS,
    KeyA,
    KeyD,
    ArrowUp,
    ArrowDown,
    ArrowLeft,
    ArrowRight,
    Space,
    ShiftLeft,
    /// Any key that moves nothing.
    Other,
}

/// Whether a key went down or came up.
#[derive(Clone, Copy, Debug, PartialEq, Eq, Structural)]
pub enum ElementState {
    Pressed,
    Released,
}

/// One of the six directions of movement.
#[derive(Clone, Copy, Debug, PartialEq, Eq, Structural)]
pub enum Direction {
    Forward,
    Backward,
    Left,
    Right,
    Up,
    Down,
}

/// The direction that a key moves in, if it moves at all.
pub open spec fn direction_of(key: KeyCode) -> Option<Direction> {
    match key {
        KeyCode::KeyW | KeyCode::ArrowUp => Some(Direction::Forward),
        KeyCode::KeyS | KeyCode::ArrowDown => Some(Direction::Backward),
        KeyCode::KeyA | KeyCode::ArrowRight => Some(Direction::Left),
        KeyCode::KeyD | KeyCode::ArrowLeft => Some(Direction::Right),
        KeyCode::Space => Some(Direction::Up),
        KeyCode::ShiftLeft => Some(Direction::Down),
        KeyCode::Other => None,
    }
}

/// Tells the direction that a key moves in, if it moves at all.
pub fn direction_for(key: KeyCode) -> (r: Option<Direction>)
    ensures
        r == direction_of(key),
{
    match key {
        KeyCode::KeyW | KeyCode::ArrowUp => Some(Direction::Forward),
        KeyCode::KeyS | KeyCode::ArrowDown => Some(Direction::Backward),
        KeyCode::KeyA | KeyCode::ArrowRight => Some(Direction::Left),
        KeyCode::KeyD | KeyCode::ArrowLeft => Some(Direction::Right),
        KeyCode::Space => Some(Direction::Up),
        KeyCode::ShiftLeft => Some(Direction::Down),
        KeyCode::Other => None,
    }
}

/// The value of a held or released direction: 1 or 0.
pub open spec fn amount(held: bool) -> int {
    if held {
        1
    } else {
        0
    }
}

/// The accumulated input. The six movement amounts say which directions are
/// held and last until the key changes; the rotation and the scroll are
/// valid for one camera update and are zeroed by it. Scalars are
/// single-precision bit patterns.
#[derive(Clone, Copy, Debug)]
pub struct Controller {
    pub amount_left: bool,
    pub amount_right: bool,
    pub amount_forward: bool,
    pub amount_backward: bool,
    pub amount_up: bool,
    pub amount_down: bool,
    pub rotate_horizontal: u32,
    pub rotate_vertical: u32,
    pub scroll: u32,
    pub speed: u32,
    pub sensitivity: u32,
}

impl Controller {
    /// The controller with the amount of one direction replaced.
    pub open spec fn with_amount(self, direction: Direction, held: bool) -> Controller {
        match direction {
            Direction::Forward => Controller { amount_forward: held, ..self },
            Direction::Backward => Controller { amount_backward: held, ..self },
            Direction::Left => Controller { amount_left: held, ..self },
            Direction::Right => Controller { amount_right: held, ..self },
            Direction::Up => Controller { amount_up: held, ..self },
            Direction::Down => Controller { amount_down: held, ..self },
        }
    }

    /// The controller after a key event.
    pub open spec fn after_key(self, key: KeyCode, state: ElementState) -> Controller {
        match direction_of(key) {
            Some(direction) => self.with_amount(direction, state == ElementState::Pressed),
            None => self,
        }
    }

    /// The controller after a pointer movement: the rotation is replaced.
    pub open spec fn after_mouse(self, mouse_dx: u32, mouse_dy: u32) -> Controller {
        Controller { rotate_horizontal: mouse_dx, rotate_vertical: mouse_dy, ..self }
    }

    /// The controller after a wheel movement of so many pixels: the scroll is
    /// replaced by the negated movement.
    pub open spec fn after_scroll(self, pixels: u32) -> Controller {
        Controller { scroll: neg(pixels), ..self }
    }

    /// The controller with its one-shot fields zeroed and the rest kept.
    pub open spec fn consumed(self) -> Controller {
        Controller { rotate_horizontal: ZERO, rotate_vertical: ZERO, scroll: ZERO, ..self }
    }

    /// No rotation or scroll is pending.
    pub open spec fn idle(self) -> bool {
        self.rotate_horizontal == ZERO && self.rotate_vertical == ZERO && self.scroll == ZERO
    }

    /// Forward minus backward: -1, 0 or 1.
    pub open spec fn forward_net(self) -> int {
        amount(self.amount_forward) - amount(self.amount_backward)
    }

    /// Right minus left: -1, 0 or 1.
    pub open spec fn right_net(self) -> int {
        amount(self.amount_right) - amount(self.amount_left)
    }

    /// Up minus down: -1, 0 or 1.
    pub open spec fn up_net(self) -> int {
        amount(self.amount_up) - amount(self.amount_down)
    }

    /// A controller with nothing held and nothing pending.
    pub fn new(speed: u32, sensitivity: u32) -> (r: Self)
        ensures
            r == (Controller {
                amount_left: false,
                amount_right: false,
                amount_forward: false,
                amount_backward: false,
                amount_up: false,
                amount_down: false,
                rotate_horizontal: ZERO,
                rotate_vertical: ZERO,
                scroll: ZERO,
                speed,
                sensitivity,
            }),
    {
        Controller {
            amount_left: false,
            amount_right: false,
            amount_forward: false,
            amount_backward: false,
            amount_up: false,
            amount_down: false,
            rotate_horizontal: ZERO,
            rotate_vertical: ZERO,
            scroll: ZERO,
            speed,
            sensitivity,
        }
    }

    /// Sets the amount of one direction: held or not.
    pub fn set_movement(&mut self, direction: Direction, pressed: bool)
        ensures
            *final(self) == old(self).with_amount(direction, pressed),
    {
        match direction {
            Direction::Forward => {
                self.amount_forward = pressed;
            },
            Direction::Backward => {
                self.amount_backward = pressed;
            },
            Direction::Left => {
                self.amount_left = pressed;
            },
            Direction::Right => {
                self.amount_right = pressed;
            },
            Direction::Up => {
                self.amount_up = pressed;
            },
            Direction::Down => {
                self.amount_down = pressed;
            },
        }
    }

    /// Records a key going down or coming up. A key that moves nothing
    /// changes nothing.
    pub fn process_keyboard(&mut self, key: KeyCode, state: ElementState)
        ensures
            *final(self) == old(self).after_key(key, state),
    {
        let pressed = match state {
            ElementState::Pressed => true,
            ElementState::Released => false,
        };
        match direction_for(key) {
            Some(direction) => {
                self.set_movement(direction, pressed);
            },
            None => {},
        }
    }

    /// Records the pointer movement of this frame. It replaces what was
    /// recorded before: the last movement wins.
    pub fn process_mouse(&mut self, mouse_dx: u32, mouse_dy: u32)
        ensures
            *final(self) == old(self).after_mouse(mouse_dx, mouse_dy),
    {
        self.rotate_horizontal = mouse_dx;
        self.rotate_vertical = mouse_dy;
    }

    /// Records a wheel movement, given in pixels. The sign is inverted, so
    /// that the stored scroll is the negated movement.
    pub fn process_scroll(&mut self, pixels: u32)
        ensures
            *final(self) == old(self).after_scroll(pixels),
    {
        self.scroll = negate(pixels);
    }

    /// Zeroes the rotation and the scroll. The movement amounts stay: they
    /// follow the keys.
    pub fn reset(&mut self)
        ensures
            *final(self) == old(self).consumed(),
            final(self).idle(),
    {
        self.scroll = ZERO;
        self.rotate_horizontal = ZERO;
        self.rotate_vertical = ZERO;
    }

    /// Forward minus backward, as a whole number.
    pub fn forward_axis(&self) -> (r: i8)
        ensures
            r == self.forward_net(),
            -1 <= r <= 1,
    {
        axis(self.amount_forward, self.amount_backward)
    }

    /// Right minus left, as a whole number.
    pub fn right_axis(&self) -> (r: i8)
        ensures
            r == self.right_net(),
            -1 <= r <= 1,
    {
        axis(self.amount_right, self.amount_left)
    }

    /// Up minus down, as a whole number.
    pub fn up_axis(&self) -> (r: i8)
        ensures
            r == self.up_net(),
            -1 <= r <= 1,
    {
        axis(self.amount_up, self.amount_down)
    }
}

/// The amount of one direction minus that of its opposite.
fn axis(positive: bool, negative: bool) -> (r: i8)
    ensures
        r == amount(positive) - amount(negative),
{
    if positive == negative {
        0
    } else if positive {
        1
    } else {
        -1
    }
}

/// Consuming twice is consuming once, and consuming leaves the movement
/// amounts and the configuration as they were.
pub proof fn lemma_consume_idempotent(c: Controller)
    ensures
        c.consumed().consumed() == c.consumed(),
        c.consumed().idle(),
        c.consumed().forward_net() == c.forward_net(),
        c.consumed().right_net() == c.right_net(),
        c.consumed().up_net() == c.up_net(),
        c.consumed().speed == c.speed,
        c.consumed().sensitivity == c.sensitivity,
{
}

/// Of two pointer movements in one frame only the second is kept.
pub proof fn lemma_last_rotation_wins(c: Controller, dx1: u32, dy1: u32, dx2: u32, dy2: u32)
    ensures
        c.after_mouse(dx1, dy1).after_mouse(dx2, dy2) == c.after_mouse(dx2, dy2),
{
}

} // verus!
