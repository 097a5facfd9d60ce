//! The kinematic context: animation frame counter, position and velocity,
//! with the pure transformations that one simulation tick is made of.

use vstd::prelude::*;
use crate::geometry::Point;
use crate::model::{Kinematics, FLOOR, GRAVITY, RUNNING_SPEED};

verus! {

/// Frame counter, position and velocity of the character.
#[derive(Clone, Copy, Debug, PartialEq, Eq, Structural)]
pub struct RedHatBoyContext {
    pub frame: u8,
    pub position: Point,
    pub velocity: Point,
}

impl View for RedHatBoyContext {
    type V = Kinematics;

    open spec fn view(&self) -> Kinematics {
        Kinematics {
            frame: self.frame as nat,
            position: self.position@,
            velocity: self.velocity@,
        }
    }
}

impl RedHatBoyContext {
    /// Advances the context by one tick of a state whose animation has
    /// `frame_count` as its ceiling.
    pub fn update(self, frame_count: u8) -> (next: Self)
        requires
            self@.can_update(),
        ensures
            next@ == self@.update(frame_count as nat),
            next.frame <= frame_count,
            next.position.y <= FLOOR,
    {
        let mut next = self;
        next.velocity.y = next.velocity.y + GRAVITY;
        if next.frame < frame_count {
            next.frame = next.frame + 1;
        } else {
            next.frame = 0;
        }
        next.position.x = next.position.x + next.velocity.x;
        next.position.y = next.position.y + next.velocity.y;
        if next.position.y > FLOOR {
            next.position.y = FLOOR;
        }
        next
    }

    /// Tells whether [`update`](Self::update) may be called: whether its
    /// sums stay within 16 bits.
    pub fn can_update(&self) -> (ok: bool)
        ensures
            ok == self@.can_update(),
    {
        let velocity_y: i32 = self.velocity.y as i32 + GRAVITY as i32;
        let x: i32 = self.position.x as i32 + self.velocity.x as i32;
        let y: i32 = self.position.y as i32 + velocity_y;
        velocity_y <= i16::MAX as i32 && i16::MIN as i32 <= x && x <= i16::MAX as i32
            && i16::MIN as i32 <= y && y <= i16::MAX as i32
    }

    /// Starts the animation over.
    pub fn reset_frame(self) -> (next: Self)
        ensures
            next@ == self@.reset_frame(),
    {
        let mut next = self;
        next.frame = 0;
        next
    }

    /// Adds the running speed to the horizontal velocity.
    pub fn run_right(self) -> (next: Self)
        requires
            self@.can_run_right(),
        ensures
            next@ == self@.run_right(),
    {
        let mut next = self;
        next.velocity.x = next.velocity.x + RUNNING_SPEED;
        next
    }

    /// Tells whether [`run_right`](Self::run_right) may be called.
    pub fn can_run_right(&self) -> (ok: bool)
        ensures
            ok == self@.can_run_right(),
    {
        self.velocity.x <= i16::MAX - RUNNING_SPEED
    }

    /// Replaces the vertical velocity.
    pub fn set_vertical_velocity(self, y: i16) -> (next: Self)
        ensures
            next@ == self@.set_vertical_velocity(y as int),
    {
        let mut next = self;
        next.velocity.y = y;
        next
    }
}

} // verus!
