//! The state machine: the one value that says what the character is doing,
//! and the events that move it from state to state.

use vstd::prelude::*;
use vstd::std_specs::convert::FromSpecImpl;
use crate::context::RedHatBoyContext;
use crate::model::{Event, Machine};
use crate::states::{
    Idle, Jumping, JumpingEndState, RedHatBoyState, Running, Sliding, SlidingEndState,
};

verus! {

/// The character's state: exactly one of the four typed states.
#[derive(Clone, Copy)]
pub enum RedHatBoyStateMachine {
    Idle(RedHatBoyState<Idle>),
    Running(RedHatBoyState<Running>),
    Sliding(RedHatBoyState<Sliding>),
    Jumping(RedHatBoyState<Jumping>),
}

impl View for RedHatBoyStateMachine {
    type V = Machine;

    open spec fn view(&self) -> Machine {
        match self {
            RedHatBoyStateMachine::Idle(state) => Machine::idle(state@),
            RedHatBoyStateMachine::Running(state) => Machine::running(state@),
            RedHatBoyStateMachine::Sliding(state) => Machine::sliding(state@),
            RedHatBoyStateMachine::Jumping(state) => Machine::jumping(state@),
        }
    }
}

impl RedHatBoyStateMachine {
    /// Performs the transition that `event` asks for. An event that the
    /// current state does not accept is ignored: the machine comes back
    /// unchanged.
    pub fn transition(self, event: Event) -> (next: Self)
        requires
            self@.can_transition(event),
        ensures
            next@ == self@.transition(event),
            !self@.kind.accepts(event) ==> next == self,
    {
        match (self, event) {
            (RedHatBoyStateMachine::Idle(state), Event::Run) => RedHatBoyStateMachine::from(
                state.run(),
            ),
            (RedHatBoyStateMachine::Running(state), Event::Slide) => RedHatBoyStateMachine::from(
                state.slide(),
            ),
            (RedHatBoyStateMachine::Running(state), Event::Jump) => RedHatBoyStateMachine::from(
                state.jump(),
            ),
            (RedHatBoyStateMachine::Idle(state), Event::Update) => RedHatBoyStateMachine::from(
                state.update(),
            ),
            (RedHatBoyStateMachine::Running(state), Event::Update) => RedHatBoyStateMachine::from(
                state.update(),
            ),
            (RedHatBoyStateMachine::Sliding(state), Event::Update) => RedHatBoyStateMachine::from(
                state.update(),
            ),
            (RedHatBoyStateMachine::Jumping(state), Event::Update) => RedHatBoyStateMachine::from(
                state.update(),
            ),
            _ => self,
        }
    }

    /// Tells whether [`transition`](Self::transition) may be called with
    /// `event`: whether the sums it computes stay within 16 bits.
    pub fn can_transition(&self, event: Event) -> (ok: bool)
        ensures
            ok == self@.can_transition(event),
    {
        match (self, event) {
            (RedHatBoyStateMachine::Idle(state), Event::Run) => state.context().can_run_right(),
            (_, Event::Update) => self.context().can_update(),
            _ => true,
        }
    }

    /// The base name of the current state's animation cells.
    pub fn frame_name(&self) -> (name: &str)
        ensures
            name@ == self@.kind.frame_name(),
    {
        match self {
            RedHatBoyStateMachine::Idle(state) => state.frame_name(),
            RedHatBoyStateMachine::Running(state) => state.frame_name(),
            RedHatBoyStateMachine::Sliding(state) => state.frame_name(),
            RedHatBoyStateMachine::Jumping(state) => state.frame_name(),
        }
    }

    /// The context of the current state.
    pub fn context(&self) -> (context: &RedHatBoyContext)
        ensures
            context@ == self@.context,
    {
        match self {
            RedHatBoyStateMachine::Idle(state) => state.context(),
            RedHatBoyStateMachine::Running(state) => state.context(),
            RedHatBoyStateMachine::Sliding(state) => state.context(),
            RedHatBoyStateMachine::Jumping(state) => state.context(),
        }
    }

    /// One tick of the simulation.
    pub fn update(self) -> (next: Self)
        requires
            self@.can_transition(Event::Update),
        ensures
            next@ == self@.update(),
    {
        self.transition(Event::Update)
    }
}

impl From<RedHatBoyState<Idle>> for RedHatBoyStateMachine {
    fn from(state: RedHatBoyState<Idle>) -> (machine: Self) {
        RedHatBoyStateMachine::Idle(state)
    }
}

impl FromSpecImpl<RedHatBoyState<Idle>> for RedHatBoyStateMachine {
    open spec fn obeys_from_spec() -> bool {
        true
    }

    open spec fn from_spec(state: RedHatBoyState<Idle>) -> Self {
        RedHatBoyStateMachine::Idle(state)
    }
}

impl From<RedHatBoyState<Running>> for RedHatBoyStateMachine {
    fn from(state: RedHatBoyState<Running>) -> (machine: Self) {
        RedHatBoyStateMachine::Running(state)
    }
}

impl FromSpecImpl<RedHatBoyState<Running>> for RedHatBoyStateMachine {
    open spec fn obeys_from_spec() -> bool {
        true
    }

    open spec fn from_spec(state: RedHatBoyState<Running>) -> Self {
        RedHatBoyStateMachine::Running(state)
    }
}

impl From<RedHatBoyState<Sliding>> for RedHatBoyStateMachine {
    fn from(state: RedHatBoyState<Sliding>) -> (machine: Self) {
        RedHatBoyStateMachine::Sliding(state)
    }
}

impl FromSpecImpl<RedHatBoyState<Sliding>> for RedHatBoyStateMachine {
    open spec fn obeys_from_spec() -> bool {
        true
    }

    open spec fn from_spec(state: RedHatBoyState<Sliding>) -> Self {
        RedHatBoyStateMachine::Sliding(state)
    }
}

impl From<RedHatBoyState<Jumping>> for RedHatBoyStateMachine {
    fn from(state: RedHatBoyState<Jumping>) -> (machine: Self) {
        RedHatBoyStateMachine::Jumping(state)
    }
}

impl FromSpecImpl<RedHatBoyState<Jumping>> for RedHatBoyStateMachine {
    open spec fn obeys_from_spec() -> bool {
        true
    }

    open spec fn from_spec(state: RedHatBoyState<Jumping>) -> Self {
        RedHatBoyStateMachine::Jumping(state)
    }
}

impl From<SlidingEndState> for RedHatBoyStateMachine {
    fn from(end_state: SlidingEndState) -> (machine: Self) {
        match end_state {
            SlidingEndState::Complete(running_state) => RedHatBoyStateMachine::from(running_state),
            SlidingEndState::Sliding(sliding_state) => RedHatBoyStateMachine::from(sliding_state),
        }
    }
}

impl FromSpecImpl<SlidingEndState> for RedHatBoyStateMachine {
    open spec fn obeys_from_spec() -> bool {
        true
    }

    open spec fn from_spec(end_state: SlidingEndState) -> Self {
        match end_state {
            SlidingEndState::Complete(running_state) => RedHatBoyStateMachine::Running(
                running_state,
            ),
            SlidingEndState::Sliding(sliding_state) => RedHatBoyStateMachine::Sliding(
                sliding_state,
            ),
        }
    }
}

impl From<JumpingEndState> for RedHatBoyStateMachine {
    fn from(end_state: JumpingEndState) -> (machine: Self) {
        match end_state {
            JumpingEndState::Complete(running_state) => RedHatBoyStateMachine::from(running_state),
            JumpingEndState::Jumping(jumping_state) => RedHatBoyStateMachine::from(jumping_state),
        }
    }
}

impl FromSpecImpl<JumpingEndState> for RedHatBoyStateMachine {
    open spec fn obeys_from_spec() -> bool {
        true
    }

    open spec fn from_spec(end_state: JumpingEndState) -> Self {
        match end_state {
            JumpingEndState::Complete(running_state) => RedHatBoyStateMachine::Running(
                running_state,
            ),
            JumpingEndState::Jumping(jumping_state) => RedHatBoyStateMachine::Jumping(
                jumping_state,
            ),
        }
    }
}

} // verus!
