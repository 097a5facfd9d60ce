//! The character as a mathematical object: motion over unbounded integers,
//! the four kinds of state, and the transition function between them.
//! The executable types of this crate are specified by their views into
//! these values.

use vstd::prelude::*;

verus! {

/// The `y` coordinate of the ground. Positions are clamped to it.
pub const FLOOR: i16 = 475;

/// What every tick adds to the vertical velocity.
pub const GRAVITY: i16 = 1;

/// What starting to run adds to the horizontal velocity.
pub const RUNNING_SPEED: i16 = 3;

/// The vertical velocity that a jump starts with.
pub const JUMP_SPEED: i16 = -25;

/// Ceiling of the frame counter while idle.
pub const IDLE_FRAMES: u8 = 29;

/// Ceiling of the frame counter while running.
pub const RUNNING_FRAMES: u8 = 23;

/// Ceiling of the frame counter while sliding; reaching it ends the slide.
pub const SLIDING_FRAMES: u8 = 14;

/// Ceiling of the frame counter while jumping.
pub const JUMPING_FRAMES: u8 = 35;

/// A pair of integer coordinates; `y` grows downward.
pub struct Vector {
    pub x: int,
    pub y: int,
}

/// Frame counter, position and velocity.
pub struct Kinematics {
    pub frame: nat,
    pub position: Vector,
    pub velocity: Vector,
}

impl Kinematics {
    /// At rest on the floor at the left edge, at the first frame.
    pub open spec fn initial() -> Kinematics {
        Kinematics {
            frame: 0,
            position: Vector { x: 0, y: FLOOR as int },
            velocity: Vector { x: 0, y: 0 },
        }
    }

    /// One tick: gravity acts on the velocity, the frame counter advances
    /// below `frame_count` and starts over at it, the velocity moves the
    /// position, and the floor stops the fall.
    pub open spec fn update(self, frame_count: nat) -> Kinematics {
        let velocity = Vector { x: self.velocity.x, y: self.velocity.y + GRAVITY };
        let fallen = self.position.y + velocity.y;
        Kinematics {
            frame: if self.frame < frame_count { self.frame + 1 } else { 0 },
            position: Vector {
                x: self.position.x + velocity.x,
                y: if fallen > FLOOR { FLOOR as int } else { fallen },
            },
            velocity,
        }
    }

    /// `n` ticks in a row, all with the same `frame_count`.
    pub open spec fn updates(self, frame_count: nat, n: nat) -> Kinematics
        decreases n,
    {
        if n == 0 {
            self
        } else {
            self.updates(frame_count, (n - 1) as nat).update(frame_count)
        }
    }

    /// The same motion at the first frame.
    pub open spec fn reset_frame(self) -> Kinematics {
        Kinematics { frame: 0, ..self }
    }

    /// The same motion, faster to the right by the running speed.
    pub open spec fn run_right(self) -> Kinematics {
        Kinematics {
            velocity: Vector { x: self.velocity.x + RUNNING_SPEED, y: self.velocity.y },
            ..self
        }
    }

    /// The same motion with the vertical velocity replaced by `y`.
    pub open spec fn set_vertical_velocity(self, y: int) -> Kinematics {
        Kinematics { velocity: Vector { x: self.velocity.x, y }, ..self }
    }

    /// Every sum that a tick computes fits a 16-bit coordinate.
    pub open spec fn can_update(self) -> bool {
        &&& self.velocity.y + GRAVITY <= i16::MAX
        &&& i16::MIN <= self.position.x + self.velocity.x <= i16::MAX
        &&& i16::MIN <= self.position.y + self.velocity.y + GRAVITY <= i16::MAX
    }

    /// The horizontal velocity can take the running speed on top.
    pub open spec fn can_run_right(self) -> bool {
        self.velocity.x + RUNNING_SPEED <= i16::MAX
    }
}

/// Which of the four states a character is in.
#[derive(Clone, Copy, Debug, PartialEq, Eq, Structural)]
pub enum StateKind {
    Idle,
    Running,
    Sliding,
    Jumping,
}

impl StateKind {
    /// The base name of the state's animation cells.
    pub open spec fn frame_name(self) -> Seq<char> {
        match self {
            StateKind::Idle => seq!['I', 'd', 'l', 'e'],
            StateKind::Running => seq!['R', 'u', 'n'],
            StateKind::Sliding => seq!['S', 'l', 'i', 'd', 'e'],
            StateKind::Jumping => seq!['J', 'u', 'm', 'p'],
        }
    }

    /// The ceiling of the state's frame counter.
    pub open spec fn frame_count(self) -> nat {
        match self {
            StateKind::Idle => IDLE_FRAMES as nat,
            StateKind::Running => RUNNING_FRAMES as nat,
            StateKind::Sliding => SLIDING_FRAMES as nat,
            StateKind::Jumping => JUMPING_FRAMES as nat,
        }
    }

    /// The number of cells that the animation of the state has: one for
    /// every three frames up to the ceiling of the frame counter.
    pub open spec fn cell_count(self) -> nat {
        (self.frame_count() + 2) / 3
    }

    /// Whether the state reacts to `event`. Every state takes a tick; a run
    /// starts from rest only, a slide and a jump from a run only.
    pub open spec fn accepts(self, event: Event) -> bool {
        match (self, event) {
            (_, Event::Update) => true,
            (StateKind::Idle, Event::Run) => true,
            (StateKind::Running, Event::Slide) => true,
            (StateKind::Running, Event::Jump) => true,
            _ => false,
        }
    }
}

/// The decimal digit `d` as a character.
pub open spec fn digit(d: nat) -> char
    recommends
        d < 10,
{
    if d == 0 {
        '0'
    } else if d == 1 {
        '1'
    } else if d == 2 {
        '2'
    } else if d == 3 {
        '3'
    } else if d == 4 {
        '4'
    } else if d == 5 {
        '5'
    } else if d == 6 {
        '6'
    } else if d == 7 {
        '7'
    } else if d == 8 {
        '8'
    } else {
        '9'
    }
}

/// `n` written in decimal, without leading zeros.
pub open spec fn decimal(n: nat) -> Seq<char>
    decreases n,
{
    if n < 10 {
        seq![digit(n)]
    } else {
        decimal(n / 10).push(digit(n % 10))
    }
}

/// The number of the animation cell shown at `frame`: a cell stays for
/// three frames, and cells are counted from one.
pub open spec fn cell_index(frame: nat) -> nat {
    frame / 3 + 1
}

/// The name under which a sprite sheet holds cell number `index` of the
/// animation `base`: the base name, a space, the number in parentheses, and
/// the extension `.png`.
pub open spec fn indexed_cell_name(base: Seq<char>, index: nat) -> Seq<char> {
    base + seq![' ', '('] + decimal(index) + seq![')', '.', 'p', 'n', 'g']
}

/// The name under which a sprite sheet holds the cell of the animation
/// `base` shown at `frame`.
pub open spec fn cell_name(base: Seq<char>, frame: nat) -> Seq<char> {
    indexed_cell_name(base, cell_index(frame))
}

/// The cell names `names` leave no gap: for each of the four states they
/// hold every cell of its animation, from the first to the last.
pub open spec fn covers_every_state(names: Set<Seq<char>>) -> bool {
    forall|kind: StateKind, index: nat|
        1 <= index <= kind.cell_count() ==> names.contains(
            #[trigger] indexed_cell_name(kind.frame_name(), index),
        )
}

/// The name of the key that asks for a run.
pub open spec fn run_key() -> Seq<char> {
    "ArrowRight"@
}

/// The name of the key that asks for a slide.
pub open spec fn slide_key() -> Seq<char> {
    "ArrowDown"@
}

/// The name of the key that asks for a jump.
pub open spec fn jump_key() -> Seq<char> {
    "Space"@
}

/// What can happen to a character: three requests of the player, and the
/// tick of the simulation.
#[derive(Clone, Copy, Debug, PartialEq, Eq, Structural)]
pub enum Event {
    Run,
    Slide,
    Jump,
    Update,
}

/// A state of the character: its kind and its motion.
pub struct Machine {
    pub kind: StateKind,
    pub context: Kinematics,
}

impl Machine {
    /// The state every character starts in.
    pub open spec fn initial() -> Machine {
        Machine::idle(Kinematics::initial())
    }

    /// An idle state with the given motion.
    pub open spec fn idle(context: Kinematics) -> Machine {
        Machine { kind: StateKind::Idle, context }
    }

    /// A running state with the given motion.
    pub open spec fn running(context: Kinematics) -> Machine {
        Machine { kind: StateKind::Running, context }
    }

    /// A sliding state with the given motion.
    pub open spec fn sliding(context: Kinematics) -> Machine {
        Machine { kind: StateKind::Sliding, context }
    }

    /// A jumping state with the given motion.
    pub open spec fn jumping(context: Kinematics) -> Machine {
        Machine { kind: StateKind::Jumping, context }
    }

    /// The name of the sprite-sheet cell that shows this state.
    pub open spec fn cell_name(self) -> Seq<char> {
        cell_name(self.kind.frame_name(), self.context.frame)
    }

    /// The state after `event`. An event that the state does not accept
    /// leaves it as it is.
    pub open spec fn transition(self, event: Event) -> Machine {
        match (self.kind, event) {
            (StateKind::Idle, Event::Run) => Machine {
                kind: StateKind::Running,
                context: self.context.reset_frame().run_right(),
            },
            (StateKind::Running, Event::Slide) => Machine {
                kind: StateKind::Sliding,
                context: self.context.reset_frame(),
            },
            (StateKind::Running, Event::Jump) => Machine {
                kind: StateKind::Jumping,
                context: self.context.set_vertical_velocity(JUMP_SPEED as int).reset_frame(),
            },
            (StateKind::Idle, Event::Update) => Machine {
                kind: StateKind::Idle,
                context: self.context.update(IDLE_FRAMES as nat),
            },
            (StateKind::Running, Event::Update) => Machine {
                kind: StateKind::Running,
                context: self.context.update(RUNNING_FRAMES as nat),
            },
            (StateKind::Sliding, Event::Update) => {
                let context = self.context.update(SLIDING_FRAMES as nat);
                if context.frame >= SLIDING_FRAMES {
                    Machine { kind: StateKind::Running, context: context.reset_frame() }
                } else {
                    Machine { kind: StateKind::Sliding, context }
                }
            },
            (StateKind::Jumping, Event::Update) => {
                let context = self.context.update(JUMPING_FRAMES as nat);
                if context.position.y >= FLOOR {
                    Machine { kind: StateKind::Running, context: context.reset_frame() }
                } else {
                    Machine { kind: StateKind::Jumping, context }
                }
            },
            _ => self,
        }
    }

    /// The state after one tick.
    pub open spec fn update(self) -> Machine {
        self.transition(Event::Update)
    }

    /// The state after `n` ticks.
    pub open spec fn updates(self, n: nat) -> Machine
        decreases n,
    {
        if n == 0 {
            self
        } else {
            self.updates((n - 1) as nat).update()
        }
    }

    /// The state after `event` if `pressed`, else the state itself.
    pub open spec fn press(self, pressed: bool, event: Event) -> Machine {
        if pressed {
            self.transition(event)
        } else {
            self
        }
    }

    /// The state after the tick of a game in which the keys `keys` are held
    /// down: the requests for a run, a slide and a jump, in this order, each
    /// if its key is down, and then the tick of the simulation.
    pub open spec fn tick(self, keys: Set<Seq<char>>) -> Machine {
        self.press(keys.contains(run_key()), Event::Run).press(
            keys.contains(slide_key()),
            Event::Slide,
        ).press(keys.contains(jump_key()), Event::Jump).update()
    }

    /// The sums that `event` makes this state compute fit 16-bit
    /// coordinates.
    pub open spec fn can_transition(self, event: Event) -> bool {
        match (self.kind, event) {
            (StateKind::Idle, Event::Run) => self.context.can_run_right(),
            (_, Event::Update) => self.context.can_update(),
            _ => true,
        }
    }

    /// The sums that [`tick`](Self::tick) computes fit 16-bit coordinates.
    pub open spec fn can_tick(self, keys: Set<Seq<char>>) -> bool {
        let ran = self.press(keys.contains(run_key()), Event::Run);
        let slid = ran.press(keys.contains(slide_key()), Event::Slide);
        let jumped = slid.press(keys.contains(jump_key()), Event::Jump);
        &&& keys.contains(run_key()) ==> self.can_transition(Event::Run)
        &&& keys.contains(slide_key()) ==> ran.can_transition(Event::Slide)
        &&& keys.contains(jump_key()) ==> slid.can_transition(Event::Jump)
        &&& jumped.can_transition(Event::Update)
    }

    /// What holds of every state that a character can get into. The frame
    /// counter is within the ceiling of the state, and below it in a slide,
    /// which ends on reaching it. The character is never below the floor,
    /// and it is on the floor and not rising unless it jumps; a jump does
    /// not rise faster than it started. From the moment the character
    /// leaves rest it moves to the right at the running speed.
    pub open spec fn well_formed(self) -> bool {
        &&& self.context.frame <= self.kind.frame_count()
        &&& self.kind == StateKind::Sliding ==> self.context.frame < SLIDING_FRAMES
        &&& self.context.position.y <= FLOOR
        &&& self.kind != StateKind::Jumping ==> self.context.position.y == FLOOR
            && self.context.velocity.y >= 0
        &&& self.kind == StateKind::Jumping ==> self.context.velocity.y >= JUMP_SPEED
        &&& self.context.velocity.x == if self.kind == StateKind::Idle {
            0
        } else {
            RUNNING_SPEED as int
        }
    }
}

} // verus!
