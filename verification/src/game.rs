//! The game as the engine sees it: nothing until its assets are there, and
//! from then on the character, moved by the keys once per tick.

use vstd::prelude::*;
use web_sys::HtmlImageElement;
use crate::character::{DrawCommand, RedHatBoy, RedHatBoyView};
use crate::geometry::Rect;
use crate::input::KeyState;
use crate::model::{Event, Machine};
use crate::sheet::Sheet;

verus! {

/// The width of the canvas, in pixels.
pub const VIEWPORT_WIDTH: i16 = 600;

/// The height of the canvas, in pixels.
pub const VIEWPORT_HEIGHT: i16 = 600;

/// The rectangle of the canvas, which every frame starts by clearing.
pub open spec fn viewport() -> Rect {
    Rect { x: 0, y: 0, width: VIEWPORT_WIDTH, height: VIEWPORT_HEIGHT }
}

/// Why the game refused a request.
#[derive(Clone, Copy, Debug, PartialEq, Eq, Structural)]
pub enum GameError {
    /// The game was asked to initialize when it already was.
    AlreadyInitialized,
}

impl GameError {
    /// The error in words.
    pub fn message(&self) -> (message: &'static str)
        ensures
            message@ == "Error: Game is already initialized!"@,
    {
        "Error: Game is already initialized!"
    }
}

/// Where the assets of the game are to be had.
#[derive(Clone, Copy, Debug)]
pub struct Assets {
    /// The path of the description of the sprite sheet.
    pub sprite_sheet: &'static str,
    /// The path of the sprite image.
    pub image: &'static str,
}

/// The game: waiting for its assets, or running with its character.
pub enum WalkTheDog {
    Loading,
    Loaded(RedHatBoy),
}

impl View for WalkTheDog {
    type V = Option<RedHatBoyView>;

    /// The character, once the game has one.
    open spec fn view(&self) -> Option<RedHatBoyView> {
        match self {
            WalkTheDog::Loading => None,
            WalkTheDog::Loaded(rhb) => Some(rhb@),
        }
    }
}

/// The frame of a game: the viewport is cleared, and then the character is
/// drawn, if there is one.
pub open spec fn frame_commands(game: Option<RedHatBoyView>) -> Seq<DrawCommand> {
    match game {
        None => seq![DrawCommand::Clear(viewport())],
        Some(rhb) => seq![DrawCommand::Clear(viewport()), rhb.draw()],
    }
}

impl WalkTheDog {
    /// A game that waits for its assets.
    pub fn new() -> (game: Self)
        ensures
            game is Loading,
    {
        WalkTheDog::Loading
    }

    /// What is to be fetched before the game can be initialized: first the
    /// sprite sheet, then the image. A game that is loaded asks for nothing
    /// and refuses.
    pub fn required_assets(&self) -> (assets: Result<Assets, GameError>)
        ensures
            self is Loading ==> assets is Ok
                && assets->Ok_0.sprite_sheet@ == "Assets/sprite_sheets/rhb.json"@
                && assets->Ok_0.image@ == "Assets/sprite_sheets/rhb.png"@,
            self is Loaded ==> assets is Err && assets->Err_0 == GameError::AlreadyInitialized,
    {
        match self {
            WalkTheDog::Loading => Ok(
                Assets {
                    sprite_sheet: "Assets/sprite_sheets/rhb.json",
                    image: "Assets/sprite_sheets/rhb.png",
                },
            ),
            WalkTheDog::Loaded(_) => Err(GameError::AlreadyInitialized),
        }
    }

    /// The loaded game that a waiting game becomes with its assets: its
    /// character is at rest. The waiting game itself stays as it is. A game
    /// that is loaded refuses.
    pub fn initialize(&self, sheet: Sheet, image: HtmlImageElement) -> (game: Result<
        WalkTheDog,
        GameError,
    >)
        ensures
            self is Loading ==> game is Ok && game->Ok_0 is Loaded && game->Ok_0@ == Some(
                RedHatBoyView { machine: Machine::initial(), sheet: sheet@, image },
            ),
            self is Loaded ==> game is Err && game->Err_0 == GameError::AlreadyInitialized,
    {
        match self {
            WalkTheDog::Loading => Ok(WalkTheDog::Loaded(RedHatBoy::new(sheet, image))),
            WalkTheDog::Loaded(_) => Err(GameError::AlreadyInitialized),
        }
    }

    /// One tick of the game. A waiting game does nothing. A loaded game
    /// hands the requests of the keys that are down to its character, and
    /// then the tick of the simulation.
    pub fn update(&mut self, keystate: &KeyState)
        requires
            old(self)@ matches Some(rhb) ==> rhb.machine.can_tick(keystate@),
        ensures
            final(self)@ == match old(self)@ {
                None => None,
                Some(rhb) => Some(rhb.tick(keystate@)),
            },
            final(self)@ matches Some(rhb) ==> rhb.machine.well_formed(),
    {
        if let WalkTheDog::Loaded(rhb) = self {
            if keystate.is_pressed("ArrowRight") {
                rhb.run_right();
            }
            if keystate.is_pressed("ArrowDown") {
                rhb.slide();
            }
            if keystate.is_pressed("Space") {
                rhb.jump();
            }
            rhb.update();
        }
    }

    /// Tells whether [`update`](Self::update) may be called with
    /// `keystate`: whether the sums of the tick stay within 16 bits.
    pub fn can_update(&self, keystate: &KeyState) -> (ok: bool)
        ensures
            ok == (self@ matches Some(rhb) ==> rhb.machine.can_tick(keystate@)),
    {
        match self {
            WalkTheDog::Loading => true,
            WalkTheDog::Loaded(rhb) => {
                let mut machine = rhb.state_machine();
                if keystate.is_pressed("ArrowRight") {
                    machine = machine.transition(Event::Run);
                }
                if keystate.is_pressed("ArrowDown") {
                    machine = machine.transition(Event::Slide);
                }
                if keystate.is_pressed("Space") {
                    machine = machine.transition(Event::Jump);
                }
                machine.can_transition(Event::Update)
            },
        }
    }

    /// The instructions that draw the frame: clear the viewport, then draw
    /// the character, if there is one. Its sprite sheet must hold the cell
    /// for it.
    pub fn draw(&self) -> (commands: Vec<DrawCommand>)
        requires
            self@ matches Some(rhb) ==> rhb.can_draw(),
        ensures
            commands@ == frame_commands(self@),
    {
        let mut commands = Vec::new();
        commands.push(
            DrawCommand::Clear(
                Rect { x: 0, y: 0, width: VIEWPORT_WIDTH, height: VIEWPORT_HEIGHT },
            ),
        );
        if let WalkTheDog::Loaded(rhb) = self {
            commands.push(rhb.draw());
        }
        commands
    }

    /// Tells whether [`draw`](Self::draw) may be called: whether the sprite
    /// sheet holds the cell that shows the character.
    pub fn can_draw(&self) -> (ok: bool)
        ensures
            ok == (self@ matches Some(rhb) ==> rhb.can_draw()),
    {
        match self {
            WalkTheDog::Loading => true,
            WalkTheDog::Loaded(rhb) => rhb.can_draw(),
        }
    }
}

} // verus!
