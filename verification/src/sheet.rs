//! The sprite sheet: where in the sprite image each animation cell lies,
//! by the cell's name.

use vstd::prelude::*;
use vstd::hash_map::StringHashMap;
use vstd::string::*;
use crate::model::{cell_index, cell_name, decimal, digit};

verus! {

/// A rectangle of the sprite image, in pixels.
#[derive(Clone, Copy, Debug, PartialEq, Eq, Structural)]
pub struct SheetRect {
    pub x: i16,
    pub y: i16,
    pub w: i16,
    pub h: i16,
}

/// One animation cell of a sprite sheet.
#[derive(Clone, Copy, Debug, PartialEq, Eq, Structural)]
pub struct Cell {
    pub frame: SheetRect,
}

/// The cells of a sprite image, by name.
pub struct Sheet {
    frames: StringHashMap<Cell>,
}

impl View for Sheet {
    type V = Map<Seq<char>, Cell>;

    /// The cells that the sheet holds, by name.
    closed spec fn view(&self) -> Map<Seq<char>, Cell> {
        self.frames@
    }
}

impl Sheet {
    /// A sheet without cells.
    pub fn new() -> (sheet: Self)
        ensures
            sheet@ == Map::<Seq<char>, Cell>::empty(),
    {
        Sheet { frames: StringHashMap::new() }
    }

    /// Puts `cell` under `name`, in place of a cell that had this name.
    pub fn insert(&mut self, name: String, cell: Cell)
        ensures
            final(self)@ == old(self)@.insert(name@, cell),
    {
        self.frames.insert(name, cell);
    }

    /// The cell called `name`, if the sheet has one.
    pub fn get(&self, name: &str) -> (cell: Option<Cell>)
        ensures
            cell == if self@.contains_key(name@) {
                Some(self@[name@])
            } else {
                None
            },
    {
        match self.frames.get(name) {
            Some(cell) => Some(*cell),
            None => None,
        }
    }
}

/// The decimal digit `d` as a string of one character.
fn digit_str(d: u8) -> (s: &'static str)
    requires
        d < 10,
    ensures
        s@ == seq![digit(d as nat)],
{
    proof {
        reveal_strlit("0");
        reveal_strlit("1");
        reveal_strlit("2");
        reveal_strlit("3");
        reveal_strlit("4");
        reveal_strlit("5");
        reveal_strlit("6");
        reveal_strlit("7");
        reveal_strlit("8");
        reveal_strlit("9");
    }
    let s = if d == 0 {
        "0"
    } else if d == 1 {
        "1"
    } else if d == 2 {
        "2"
    } else if d == 3 {
        "3"
    } else if d == 4 {
        "4"
    } else if d == 5 {
        "5"
    } else if d == 6 {
        "6"
    } else if d == 7 {
        "7"
    } else if d == 8 {
        "8"
    } else {
        "9"
    };
    assert(s@ =~= seq![digit(d as nat)]);
    s
}

/// `n` written in decimal, without leading zeros.
pub fn decimal_string(n: u8) -> (s: String)
    ensures
        s@ == decimal(n as nat),
{
    let mut s = String::new();
    if n >= 100 {
        s.append(digit_str(n / 100));
    }
    if n >= 10 {
        s.append(digit_str((n / 10) % 10));
    }
    s.append(digit_str(n % 10));
    proof {
        reveal_with_fuel(decimal, 3);
        assert(s@ =~= decimal(n as nat));
    }
    s
}

/// The name under which a sprite sheet holds the cell of the animation
/// `base` shown at `frame`, such as `Run (3).png` for `Run` at frame 7.
pub fn cell_name_string(base: &str, frame: u8) -> (name: String)
    ensures
        name@ == cell_name(base@, frame as nat),
{
    let mut name = String::from_str(base);
    name.append(" (");
    let index = decimal_string(frame / 3 + 1);
    name.append(index.as_str());
    name.append(").png");
    proof {
        reveal_strlit(" (");
        reveal_strlit(").png");
        assert(" ("@ =~= seq![' ', '(']);
        assert(").png"@ =~= seq![')', '.', 'p', 'n', 'g']);
        assert((frame / 3 + 1) as nat == cell_index(frame as nat));
    }
    name
}

} // verus!
