//! The four states of the character, each a context tagged with a marker
//! type, so that a state offers only the transitions that are legal from it.

use vstd::prelude::*;
use crate::context::RedHatBoyContext;
use crate::geometry::Point;
use crate::model::{
    Event, Kinematics, Machine, StateKind, FLOOR, IDLE_FRAMES, JUMPING_FRAMES, JUMP_SPEED,
    RUNNING_FRAMES, SLIDING_FRAMES,
};

verus! {

/// Marker of the state in which the character stands still.
#[derive(Clone, Copy)]
pub struct Idle;

/// Marker of the state in which the character runs.
#[derive(Clone, Copy)]
pub struct Running;

/// Marker of the state in which the character slides.
#[derive(Clone, Copy)]
pub struct Sliding;

/// Marker of the state in which the character is in the air.
#[derive(Clone, Copy)]
pub struct Jumping;

/// A context tagged with the state `S` that it belongs to.
#[derive(Clone, Copy)]
pub struct RedHatBoyState<S> {
    pub context: RedHatBoyContext,
    _state: S,
}

impl<S> View for RedHatBoyState<S> {
    type V = Kinematics;

    /// The motion that the state holds.
    closed spec fn view(&self) -> Kinematics {
        self.context@
    }
}

impl<S> RedHatBoyState<S> {
    /// The context of the state.
    pub fn context(&self) -> (context: &RedHatBoyContext)
        ensures
            context@ == self@,
    {
        &self.context
    }
}

impl RedHatBoyState<Idle> {
    /// The state every character starts in: at rest on the floor.
    pub fn new() -> (state: Self)
        ensures
            state@ == Kinematics::initial(),
    {
        RedHatBoyState {
            context: RedHatBoyContext {
                frame: 0,
                position: Point { x: 0, y: FLOOR },
                velocity: Point { x: 0, y: 0 },
            },
            _state: Idle {  },
        }
    }

    /// Starts running: the animation starts over and the running speed is
    /// added to the horizontal velocity.
    pub fn run(self) -> (next: RedHatBoyState<Running>)
        requires
            self@.can_run_right(),
        ensures
            next@ == self@.reset_frame().run_right(),
            next@.frame == 0,
            next@.velocity.x == self@.velocity.x + 3,
    {
        RedHatBoyState { context: self.context.reset_frame().run_right(), _state: Running {  } }
    }

    /// Starts sliding from rest.
    pub fn slide(self) -> (next: RedHatBoyState<Sliding>)
        ensures
            next@ == self@.reset_frame(),
    {
        RedHatBoyState { context: self.context.reset_frame(), _state: Sliding {  } }
    }

    /// The base name of the idle animation cells.
    pub fn frame_name(&self) -> (name: &str)
        ensures
            name@ == StateKind::Idle.frame_name(),
    {
        proof {
            reveal_strlit("Idle");
        }
        assert("Idle"@ =~= StateKind::Idle.frame_name());
        "Idle"
    }

    /// One tick of standing still; the animation loops.
    pub fn update(self) -> (next: Self)
        requires
            self@.can_update(),
        ensures
            next@ == self@.update(IDLE_FRAMES as nat),
    {
        RedHatBoyState { context: self.context.update(IDLE_FRAMES), _state: Idle {  } }
    }
}

impl RedHatBoyState<Running> {
    /// The base name of the running animation cells.
    pub fn frame_name(&self) -> (name: &str)
        ensures
            name@ == StateKind::Running.frame_name(),
    {
        proof {
            reveal_strlit("Run");
        }
        assert("Run"@ =~= StateKind::Running.frame_name());
        "Run"
    }

    /// One tick of running; the animation loops.
    pub fn update(self) -> (next: Self)
        requires
            self@.can_update(),
        ensures
            next@ == self@.update(RUNNING_FRAMES as nat),
    {
        RedHatBoyState { context: self.context.update(RUNNING_FRAMES), _state: Running {  } }
    }

    /// Starts sliding; the speed is kept.
    pub fn slide(self) -> (next: RedHatBoyState<Sliding>)
        ensures
            next@ == self@.reset_frame(),
    {
        RedHatBoyState { context: self.context.reset_frame(), _state: Sliding {  } }
    }

    /// Jumps: the vertical velocity becomes the jump speed and the
    /// animation starts over.
    pub fn jump(self) -> (next: RedHatBoyState<Jumping>)
        ensures
            next@ == self@.set_vertical_velocity(JUMP_SPEED as int).reset_frame(),
            next@.frame == 0,
            next@.velocity.y == -25,
    {
        RedHatBoyState {
            context: self.context.set_vertical_velocity(JUMP_SPEED).reset_frame(),
            _state: Jumping {  },
        }
    }
}

impl RedHatBoyState<Sliding> {
    /// The base name of the sliding animation cells.
    pub fn frame_name(&self) -> (name: &str)
        ensures
            name@ == StateKind::Sliding.frame_name(),
    {
        proof {
            reveal_strlit("Slide");
        }
        assert("Slide"@ =~= StateKind::Sliding.frame_name());
        "Slide"
    }

    /// One tick of sliding. The slide is complete, and the character stands
    /// up into a run, on the tick that brings the frame counter to its
    /// ceiling; before that the slide goes on.
    pub fn update(self) -> (end: SlidingEndState)
        requires
            self@.can_update(),
        ensures
            end is Complete <==> self@.update(SLIDING_FRAMES as nat).frame >= SLIDING_FRAMES,
            end@.context == if end is Complete {
                self@.update(SLIDING_FRAMES as nat).reset_frame()
            } else {
                self@.update(SLIDING_FRAMES as nat)
            },
            end@ == Machine::sliding(self@).transition(Event::Update),
    {
        let next = RedHatBoyState {
            context: self.context.update(SLIDING_FRAMES),
            _state: Sliding {  },
        };
        if next.context.frame >= SLIDING_FRAMES {
            SlidingEndState::Complete(next.stand())
        } else {
            SlidingEndState::Sliding(next)
        }
    }

    /// Stands up into a run; the speed is kept.
    pub fn stand(self) -> (next: RedHatBoyState<Running>)
        ensures
            next@ == self@.reset_frame(),
    {
        RedHatBoyState { context: self.context.reset_frame(), _state: Running {  } }
    }
}

impl RedHatBoyState<Jumping> {
    /// The base name of the jumping animation cells.
    pub fn frame_name(&self) -> (name: &str)
        ensures
            name@ == StateKind::Jumping.frame_name(),
    {
        proof {
            reveal_strlit("Jump");
        }
        assert("Jump"@ =~= StateKind::Jumping.frame_name());
        "Jump"
    }

    /// One tick in the air. The jump is complete, and the character lands
    /// into a run, on the tick that brings it down to the floor; before
    /// that the jump goes on.
    pub fn update(self) -> (end: JumpingEndState)
        requires
            self@.can_update(),
        ensures
            end is Complete <==> self@.update(JUMPING_FRAMES as nat).position.y >= FLOOR,
            end@.context == if end is Complete {
                self@.update(JUMPING_FRAMES as nat).reset_frame()
            } else {
                self@.update(JUMPING_FRAMES as nat)
            },
            end@ == Machine::jumping(self@).transition(Event::Update),
    {
        let next = RedHatBoyState {
            context: self.context.update(JUMPING_FRAMES),
            _state: Jumping {  },
        };
        if next.context.position.y >= FLOOR {
            JumpingEndState::Complete(next.land())
        } else {
            JumpingEndState::Jumping(next)
        }
    }

    /// Lands into a run; the speed is kept.
    pub fn land(self) -> (next: RedHatBoyState<Running>)
        ensures
            next@ == self@.reset_frame(),
    {
        RedHatBoyState { context: self.context.reset_frame(), _state: Running {  } }
    }
}

/// How a tick of sliding ends.
pub enum SlidingEndState {
    /// The slide is over; the character runs again.
    Complete(RedHatBoyState<Running>),
    /// The slide goes on.
    Sliding(RedHatBoyState<Sliding>),
}

impl View for SlidingEndState {
    type V = Machine;

    open spec fn view(&self) -> Machine {
        match self {
            SlidingEndState::Complete(running) => Machine::running(running@),
            SlidingEndState::Sliding(sliding) => Machine::sliding(sliding@),
        }
    }
}

/// How a tick in the air ends.
pub enum JumpingEndState {
    /// The character has landed and runs again.
    Complete(RedHatBoyState<Running>),
    /// The character is still in the air.
    Jumping(RedHatBoyState<Jumping>),
}

impl View for JumpingEndState {
    type V = Machine;

    open spec fn view(&self) -> Machine {
        match self {
            JumpingEndState::Complete(running) => Machine::running(running@),
            JumpingEndState::Jumping(jumping) => Machine::jumping(jumping@),
        }
    }
}

} // verus!
