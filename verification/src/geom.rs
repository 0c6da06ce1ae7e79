//! Board geometry: positions on the fixed board, the four movement
//! directions, and the toroidal single-step move.

use vstd::prelude::*;

verus! {

/// Width of the board in cells. The hand-authored layouts hard-code wall
/// coordinates, so this must stay fixed.
pub const BOARD_WIDTH: i8 = 15;

/// Height of the board in cells.
pub const BOARD_HEIGHT: i8 = 15;

/// A cell of the board, addressed by column `x` and row `y`.
#[derive(PartialEq, Eq, Structural, Clone, Copy, Debug)]
pub struct Pos {
    pub x: i8,
    pub y: i8,
}

/// One of the four movement directions.
#[derive(PartialEq, Eq, Structural, Clone, Copy, Debug)]
pub enum Direction {
    Up,
    Down,
    Left,
    Right,
}

/// Whether a position lies on the board.
pub open spec fn in_board(p: Pos) -> bool {
    &&& 0 <= p.x < BOARD_WIDTH
    &&& 0 <= p.y < BOARD_HEIGHT
}

impl Direction {
    /// Horizontal component of the unit delta vector.
    pub open spec fn dx_spec(self) -> int {
        match self {
            Direction::Left => -1,
            Direction::Right => 1,
            _ => 0,
        }
    }

    /// Vertical component of the unit delta vector.
    pub open spec fn dy_spec(self) -> int {
        match self {
            Direction::Up => -1,
            Direction::Down => 1,
            _ => 0,
        }
    }

    /// The exact opposite direction.
    pub open spec fn rev_spec(self) -> Direction {
        match self {
            Direction::Up => Direction::Down,
            Direction::Down => Direction::Up,
            Direction::Left => Direction::Right,
            Direction::Right => Direction::Left,
        }
    }

    /// Horizontal component of the unit delta vector.
    pub fn dx(self) -> (r: i8)
        ensures
            r as int == self.dx_spec(),
    {
        match self {
            Direction::Left => -1,
            Direction::Right => 1,
            _ => 0,
        }
    }

    /// Vertical component of the unit delta vector.
    pub fn dy(self) -> (r: i8)
        ensures
            r as int == self.dy_spec(),
    {
        match self {
            Direction::Up => -1,
            Direction::Down => 1,
            _ => 0,
        }
    }

    /// The exact opposite direction.
    pub fn reverse(self) -> (r: Direction)
        ensures
            r == self.rev_spec(),
    {
        match self {
            Direction::Up => Direction::Down,
            Direction::Down => Direction::Up,
            Direction::Left => Direction::Right,
            Direction::Right => Direction::Left,
        }
    }
}

/// Toroidal wrap of a single coordinate: a coordinate past the extent comes
/// back in at 0, a negative coordinate comes back in at `extent - 1`.
pub open spec fn wrap_coord(v: int, extent: int) -> int {
    if v >= extent {
        0
    } else if v < 0 {
        extent - 1
    } else {
        v
    }
}

/// The cell reached from `p` by one move in direction `d`, with toroidal
/// wrap at the board edges.
pub open spec fn stepped(p: Pos, d: Direction) -> Pos {
    Pos {
        x: wrap_coord(p.x + d.dx_spec(), BOARD_WIDTH as int) as i8,
        y: wrap_coord(p.y + d.dy_spec(), BOARD_HEIGHT as int) as i8,
    }
}

/// One toroidal step from `p` in direction `d`.
pub fn step_from(p: Pos, d: Direction) -> (q: Pos)
    requires
        in_board(p),
    ensures
        q == stepped(p, d),
        in_board(q),
{
    let mut x: i8 = p.x + d.dx();
    let mut y: i8 = p.y + d.dy();
    if x >= BOARD_WIDTH {
        x = 0;
    } else if x < 0 {
        x = BOARD_WIDTH - 1;
    }
    if y >= BOARD_HEIGHT {
        y = 0;
    } else if y < 0 {
        y = BOARD_HEIGHT - 1;
    }
    Pos { x, y }
}

/// Membership test of a position in a list of cells.
pub fn contains_pos(v: &Vec<Pos>, p: Pos) -> (r: bool)
    ensures
        r == v@.contains(p),
{
    let mut i: usize = 0;
    while i < v.len()
        invariant
            i <= v.len(),
            forall|j: int| 0 <= j < i ==> v@[j] != p,
        decreases v.len() - i,
    {
        if v[i] == p {
            assert(v@[i as int] == p);
            return true;
        }
        i += 1;
    }
    assert(forall|j: int| 0 <= j < v@.len() ==> v@[j] != p);
    false
}

/// Toroidal wrap law: a move outward from a boundary cell lands on the
/// opposite edge, and a move whose target lies on the board is a plain
/// translation by the direction's unit delta.
pub proof fn lemma_toroidal_wrap(p: Pos, d: Direction)
    requires
        in_board(p),
    ensures
        in_board(stepped(p, d)),
        p.x + d.dx_spec() == BOARD_WIDTH ==> stepped(p, d).x == 0,
        p.x + d.dx_spec() < 0 ==> stepped(p, d).x == BOARD_WIDTH - 1,
        p.y + d.dy_spec() == BOARD_HEIGHT ==> stepped(p, d).y == 0,
        p.y + d.dy_spec() < 0 ==> stepped(p, d).y == BOARD_HEIGHT - 1,
        0 <= p.x + d.dx_spec() < BOARD_WIDTH ==> stepped(p, d).x == p.x + d.dx_spec(),
        0 <= p.y + d.dy_spec() < BOARD_HEIGHT ==> stepped(p, d).y == p.y + d.dy_spec(),
{
}

} // verus!
