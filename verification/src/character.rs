//! The character: its state machine, its sprite sheet and its image, with
//! the operations that the game loop calls on it.

use vstd::prelude::*;
use web_sys::HtmlImageElement;
use crate::geometry::Rect;
use crate::laws::lemma_transition_preserves_well_formed;
use crate::machine::RedHatBoyStateMachine;
use crate::model::{Event, Machine, StateKind, Vector};
use crate::sheet::{cell_name_string, Cell, Sheet};
use crate::states::{Idle, RedHatBoyState};

verus! {

/// Declares `web_sys::HtmlImageElement`, the image element of the browser,
/// as a type that the library carries through: a character holds the image
/// it is drawn from and hands it out again, and nothing is claimed of what
/// is inside.
#[verifier::external_type_specification]
#[verifier::external_body]
pub struct ExHtmlImageElement(HtmlImageElement);

/// An instruction to the renderer.
#[derive(Clone, Copy, Debug, PartialEq, Eq, Structural)]
pub enum DrawCommand {
    /// Clear the rectangle.
    Clear(Rect),
    /// Copy the rectangle `source` of the character's image to the
    /// rectangle `destination` of the canvas.
    Image { source: Rect, destination: Rect },
}

/// The instruction that draws `cell` with its top left corner at
/// `position`, in its own size.
pub open spec fn sprite_command(cell: Cell, position: Vector) -> DrawCommand {
    DrawCommand::Image {
        source: Rect {
            x: cell.frame.x,
            y: cell.frame.y,
            width: cell.frame.w,
            height: cell.frame.h,
        },
        destination: Rect {
            x: position.x as i16,
            y: position.y as i16,
            width: cell.frame.w,
            height: cell.frame.h,
        },
    }
}

/// The value of a [`RedHatBoy`]: its state, the cells of its sprite sheet
/// by name, and its image.
pub struct RedHatBoyView {
    pub machine: Machine,
    pub sheet: Map<Seq<char>, Cell>,
    pub image: HtmlImageElement,
}

impl RedHatBoyView {
    /// The same character after `event`.
    pub open spec fn transition(self, event: Event) -> RedHatBoyView {
        RedHatBoyView { machine: self.machine.transition(event), ..self }
    }

    /// The same character after the tick of a game in which the keys `keys`
    /// are held down.
    pub open spec fn tick(self, keys: Set<Seq<char>>) -> RedHatBoyView {
        RedHatBoyView { machine: self.machine.tick(keys), ..self }
    }

    /// The sprite sheet has the cell that shows the current state.
    pub open spec fn can_draw(self) -> bool {
        self.sheet.contains_key(self.machine.cell_name())
    }

    /// The instruction that draws the character: the cell that shows its
    /// state, at its position.
    pub open spec fn draw(self) -> DrawCommand {
        sprite_command(self.sheet[self.machine.cell_name()], self.machine.context.position)
    }
}

/// The character of the game.
pub struct RedHatBoy {
    state_machine: RedHatBoyStateMachine,
    sprite_sheet: Sheet,
    image: HtmlImageElement,
}

impl View for RedHatBoy {
    type V = RedHatBoyView;

    closed spec fn view(&self) -> RedHatBoyView {
        RedHatBoyView {
            machine: self.state_machine@,
            sheet: self.sprite_sheet@,
            image: self.image,
        }
    }
}

impl RedHatBoy {
    /// Every character is in a well-formed state: it starts in one, and no
    /// request leads out of them.
    #[verifier::type_invariant]
    spec fn well_formed(self) -> bool {
        self.state_machine@.well_formed()
    }

    /// A character at rest, drawn from `image` by the cells of `sheet`.
    pub fn new(sheet: Sheet, image: HtmlImageElement) -> (rhb: Self)
        ensures
            rhb@ == (RedHatBoyView { machine: Machine::initial(), sheet: sheet@, image }),
            rhb@.machine.well_formed(),
    {
        RedHatBoy {
            state_machine: RedHatBoyStateMachine::Idle(RedHatBoyState::<Idle>::new()),
            sprite_sheet: sheet,
            image,
        }
    }

    /// The instruction that draws the character as it is now. The sprite
    /// sheet must hold the cell for it.
    pub fn draw(&self) -> (command: DrawCommand)
        requires
            self@.can_draw(),
        ensures
            command == self@.draw(),
    {
        let context = self.state_machine.context();
        let frame = self.sprite().expect("Cell not found").frame;
        DrawCommand::Image {
            source: Rect { x: frame.x, y: frame.y, width: frame.w, height: frame.h },
            destination: Rect {
                x: context.position.x,
                y: context.position.y,
                width: frame.w,
                height: frame.h,
            },
        }
    }

    /// Tells whether [`draw`](Self::draw) may be called: whether the sprite
    /// sheet holds the cell that shows the current state.
    pub fn can_draw(&self) -> (ok: bool)
        ensures
            ok == self@.can_draw(),
    {
        self.sprite().is_some()
    }

    /// The cell of the sprite sheet that shows the current state, if the
    /// sheet holds it.
    fn sprite(&self) -> (sprite: Option<Cell>)
        ensures
            sprite == if self@.can_draw() {
                Some(self@.sheet[self@.machine.cell_name()])
            } else {
                None
            },
    {
        let frame_name = cell_name_string(
            self.state_machine.frame_name(),
            self.state_machine.context().frame,
        );
        self.sprite_sheet.get(frame_name.as_str())
    }

    /// One tick of the simulation.
    pub fn update(&mut self)
        requires
            old(self)@.machine.can_transition(Event::Update),
        ensures
            final(self)@ == old(self)@.transition(Event::Update),
            final(self)@.machine.well_formed(),
    {
        proof {
            use_type_invariant(&*self);
            lemma_transition_preserves_well_formed(self.state_machine@, Event::Update);
        }
        self.state_machine = self.state_machine.update();
    }

    /// Asks the character to run. From rest it starts to run, at the first
    /// frame and at the running speed; in every other state nothing
    /// changes.
    pub fn run_right(&mut self)
        ensures
            final(self)@ == old(self)@.transition(Event::Run),
            final(self)@.machine.well_formed(),
            old(self)@.machine.kind == StateKind::Idle ==> {
                &&& final(self)@.machine.kind == StateKind::Running
                &&& final(self)@.machine.context.frame == 0
                &&& final(self)@.machine.context.velocity.x == 3
            },
            old(self)@.machine.kind != StateKind::Idle ==> final(self)@ == old(self)@,
    {
        proof {
            use_type_invariant(&*self);
            lemma_transition_preserves_well_formed(self.state_machine@, Event::Run);
        }
        self.state_machine = self.state_machine.transition(Event::Run);
    }

    /// Asks the character to slide. From a run it starts to slide, at the
    /// first frame; in every other state nothing changes.
    pub fn slide(&mut self)
        ensures
            final(self)@ == old(self)@.transition(Event::Slide),
            final(self)@.machine.well_formed(),
            old(self)@.machine.kind == StateKind::Running ==> {
                &&& final(self)@.machine.kind == StateKind::Sliding
                &&& final(self)@.machine.context.frame == 0
            },
            old(self)@.machine.kind != StateKind::Running ==> final(self)@ == old(self)@,
    {
        proof {
            use_type_invariant(&*self);
            lemma_transition_preserves_well_formed(self.state_machine@, Event::Slide);
        }
        self.state_machine = self.state_machine.transition(Event::Slide);
    }

    /// Asks the character to jump. From a run it takes off, at the first
    /// frame and with the jump speed; in every other state nothing changes.
    pub fn jump(&mut self)
        ensures
            final(self)@ == old(self)@.transition(Event::Jump),
            final(self)@.machine.well_formed(),
            old(self)@.machine.kind == StateKind::Running ==> {
                &&& final(self)@.machine.kind == StateKind::Jumping
                &&& final(self)@.machine.context.frame == 0
                &&& final(self)@.machine.context.velocity.y == -25
            },
            old(self)@.machine.kind != StateKind::Running ==> final(self)@ == old(self)@,
    {
        proof {
            use_type_invariant(&*self);
            lemma_transition_preserves_well_formed(self.state_machine@, Event::Jump);
        }
        self.state_machine = self.state_machine.transition(Event::Jump);
    }

    /// The state machine of the character. Its state is well formed,
    /// whatever the character has gone through.
    pub fn state_machine(&self) -> (machine: RedHatBoyStateMachine)
        ensures
            machine@ == self@.machine,
            machine@.well_formed(),
    {
        proof {
            use_type_invariant(self);
        }
        self.state_machine
    }

    /// The image that the character is drawn from.
    pub fn image(&self) -> (image: &HtmlImageElement)
        ensures
            *image == self@.image,
    {
        &self.image
    }
}

} // verus!
