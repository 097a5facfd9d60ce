//! Character control for a side-scrolling game: a typed state machine that
//! turns player input and frame ticks into position, velocity and the
//! animation cell to draw.
//!
//! The executable types are specified by their views into the values of
//! [`model`]; [`laws`] holds what is proved of those values for every
//! character and every run of the game.

pub mod model;
pub mod geometry;
pub mod context;
pub mod states;
pub mod machine;
pub mod sheet;
pub mod input;
pub mod character;
pub mod game;
pub mod laws;

pub use crate::character::{DrawCommand, RedHatBoy};
pub use crate::context::RedHatBoyContext;
pub use crate::game::{Assets, GameError, WalkTheDog};
pub use crate::geometry::{Point, Rect};
pub use crate::input::KeyState;
pub use crate::machine::RedHatBoyStateMachine;
pub use crate::model::{Event, StateKind};
pub use crate::sheet::{Cell, Sheet, SheetRect};
pub use crate::states::{
    Idle, Jumping, JumpingEndState, RedHatBoyState, Running, Sliding, SlidingEndState,
};
