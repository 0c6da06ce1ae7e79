//! The hand-authored layouts: wall cells, invisible wall cells (collidable
//! but never rendered), the initial body, and the initial direction. One
//! layout is chosen uniformly at random on every (re)start.

use vstd::prelude::*;
use crate::geom::{Pos, Direction, in_board};
use crate::rng::random_below;

verus! {

/// Number of hand-authored layouts a (re)start chooses among.
pub const NUM_LEVELS: u32 = 2;

/// An immutable layout.
pub struct Level {
    /// Rendered wall cells.
    pub walls: Vec<Pos>,
    /// Cells that collide like walls but are never rendered.
    pub invisible_walls: Vec<Pos>,
    /// Initial body cells, head first.
    pub init_body: Vec<Pos>,
    /// Initial movement direction.
    pub init_dir: Direction,
}

impl Level {
    /// Well-formedness of a layout: every wall cell lies on the board, and
    /// the initial body is non-empty, lies on the board, occupies pairwise
    /// distinct cells, and overlaps no wall or invisible-wall cell.
    pub open spec fn wf(self) -> bool {
        &&& forall|i: int| 0 <= i < self.walls.len() ==> in_board(#[trigger] self.walls[i])
        &&& forall|i: int|
            0 <= i < self.invisible_walls.len() ==> in_board(#[trigger] self.invisible_walls[i])
        &&& self.init_body.len() >= 1
        &&& forall|i: int| 0 <= i < self.init_body.len() ==> in_board(#[trigger] self.init_body[i])
        &&& self.init_body@.no_duplicates()
        &&& forall|i: int|
            0 <= i < self.init_body.len() ==> !self.walls@.contains(#[trigger] self.init_body[i])
                && !self.invisible_walls@.contains(self.init_body[i])
    }
}

/// The initial body every layout starts from: three cells headed down.
pub open spec fn initial_body() -> Seq<Pos> {
    seq![Pos { x: 2, y: 3 }, Pos { x: 2, y: 2 }, Pos { x: 2, y: 1 }]
}

/// The wall cells of the first layout: a bordered arena with gaps at the
/// edge midpoints and a single block in the centre.
pub open spec fn level1_walls() -> Seq<Pos> {
    seq![
        Pos { x: 1, y: 0 }, Pos { x: 2, y: 0 }, Pos { x: 3, y: 0 }, Pos { x: 4, y: 0 },
        Pos { x: 5, y: 0 }, Pos { x: 6, y: 0 }, Pos { x: 8, y: 0 }, Pos { x: 9, y: 0 },
        Pos { x: 10, y: 0 }, Pos { x: 11, y: 0 }, Pos { x: 12, y: 0 }, Pos { x: 13, y: 0 },
        Pos { x: 14, y: 1 }, Pos { x: 14, y: 2 }, Pos { x: 14, y: 3 }, Pos { x: 14, y: 4 },
        Pos { x: 14, y: 5 }, Pos { x: 14, y: 6 }, Pos { x: 14, y: 8 }, Pos { x: 14, y: 9 },
        Pos { x: 14, y: 10 }, Pos { x: 14, y: 11 }, Pos { x: 14, y: 12 }, Pos { x: 14, y: 13 },
        Pos { x: 1, y: 14 }, Pos { x: 2, y: 14 }, Pos { x: 3, y: 14 }, Pos { x: 4, y: 14 },
        Pos { x: 5, y: 14 }, Pos { x: 6, y: 14 }, Pos { x: 8, y: 14 }, Pos { x: 9, y: 14 },
        Pos { x: 10, y: 14 }, Pos { x: 11, y: 14 }, Pos { x: 12, y: 14 }, Pos { x: 13, y: 14 },
        Pos { x: 0, y: 1 }, Pos { x: 0, y: 2 }, Pos { x: 0, y: 3 }, Pos { x: 0, y: 4 },
        Pos { x: 0, y: 5 }, Pos { x: 0, y: 6 }, Pos { x: 0, y: 8 }, Pos { x: 0, y: 9 },
        Pos { x: 0, y: 10 }, Pos { x: 0, y: 11 }, Pos { x: 0, y: 12 }, Pos { x: 0, y: 13 },
        Pos { x: 7, y: 7 },
    ]
}

/// The invisible wall cells of the first layout: the four corners and the
/// four edge midpoints, so the border gaps still collide.
pub open spec fn level1_invisible_walls() -> Seq<Pos> {
    seq![
        Pos { x: 0, y: 0 }, Pos { x: 7, y: 0 }, Pos { x: 14, y: 0 }, Pos { x: 14, y: 7 },
        Pos { x: 14, y: 14 }, Pos { x: 7, y: 14 }, Pos { x: 0, y: 14 }, Pos { x: 0, y: 7 },
    ]
}

/// The wall cells of the second layout: two diagonals and the four edge
/// midpoints, with an open border. The diagonal stops short of the cell the
/// initial body occupies, so the body never starts inside a wall.
pub open spec fn level2_walls() -> Seq<Pos> {
    seq![
        Pos { x: 3, y: 3 }, Pos { x: 4, y: 4 }, Pos { x: 5, y: 5 },
        Pos { x: 7, y: 7 }, Pos { x: 9, y: 9 }, Pos { x: 10, y: 10 }, Pos { x: 11, y: 11 },
        Pos { x: 12, y: 12 }, Pos { x: 12, y: 2 }, Pos { x: 11, y: 3 }, Pos { x: 10, y: 4 },
        Pos { x: 9, y: 5 }, Pos { x: 7, y: 7 }, Pos { x: 5, y: 9 }, Pos { x: 4, y: 10 },
        Pos { x: 3, y: 11 }, Pos { x: 2, y: 12 }, Pos { x: 0, y: 7 }, Pos { x: 7, y: 0 },
        Pos { x: 14, y: 7 }, Pos { x: 7, y: 14 },
    ]
}

/// The first layout.
pub fn level1() -> (l: Level)
    ensures
        l.wf(),
        l.walls@ == level1_walls(),
        l.invisible_walls@ == level1_invisible_walls(),
        l.init_body@ == initial_body(),
        l.init_dir == Direction::Down,
{
    let walls: Vec<Pos> = vec![
        Pos { x: 1, y: 0 }, Pos { x: 2, y: 0 }, Pos { x: 3, y: 0 }, Pos { x: 4, y: 0 },
        Pos { x: 5, y: 0 }, Pos { x: 6, y: 0 }, Pos { x: 8, y: 0 }, Pos { x: 9, y: 0 },
        Pos { x: 10, y: 0 }, Pos { x: 11, y: 0 }, Pos { x: 12, y: 0 }, Pos { x: 13, y: 0 },
        Pos { x: 14, y: 1 }, Pos { x: 14, y: 2 }, Pos { x: 14, y: 3 }, Pos { x: 14, y: 4 },
        Pos { x: 14, y: 5 }, Pos { x: 14, y: 6 }, Pos { x: 14, y: 8 }, Pos { x: 14, y: 9 },
        Pos { x: 14, y: 10 }, Pos { x: 14, y: 11 }, Pos { x: 14, y: 12 }, Pos { x: 14, y: 13 },
        Pos { x: 1, y: 14 }, Pos { x: 2, y: 14 }, Pos { x: 3, y: 14 }, Pos { x: 4, y: 14 },
        Pos { x: 5, y: 14 }, Pos { x: 6, y: 14 }, Pos { x: 8, y: 14 }, Pos { x: 9, y: 14 },
        Pos { x: 10, y: 14 }, Pos { x: 11, y: 14 }, Pos { x: 12, y: 14 }, Pos { x: 13, y: 14 },
        Pos { x: 0, y: 1 }, Pos { x: 0, y: 2 }, Pos { x: 0, y: 3 }, Pos { x: 0, y: 4 },
        Pos { x: 0, y: 5 }, Pos { x: 0, y: 6 }, Pos { x: 0, y: 8 }, Pos { x: 0, y: 9 },
        Pos { x: 0, y: 10 }, Pos { x: 0, y: 11 }, Pos { x: 0, y: 12 }, Pos { x: 0, y: 13 },
        Pos { x: 7, y: 7 },
    ];
    let invisible_walls: Vec<Pos> = vec![
        Pos { x: 0, y: 0 }, Pos { x: 7, y: 0 }, Pos { x: 14, y: 0 }, Pos { x: 14, y: 7 },
        Pos { x: 14, y: 14 }, Pos { x: 7, y: 14 }, Pos { x: 0, y: 14 }, Pos { x: 0, y: 7 },
    ];
    let init_body: Vec<Pos> = vec![
        Pos { x: 2, y: 3 }, Pos { x: 2, y: 2 }, Pos { x: 2, y: 1 },
    ];
    Level { walls, invisible_walls, init_body, init_dir: Direction::Down }
}

/// The second layout.
pub fn level2() -> (l: Level)
    ensures
        l.wf(),
        l.walls@ == level2_walls(),
        l.invisible_walls@ == Seq::<Pos>::empty(),
        l.init_body@ == initial_body(),
        l.init_dir == Direction::Down,
{
    let walls: Vec<Pos> = vec![
        Pos { x: 3, y: 3 }, Pos { x: 4, y: 4 }, Pos { x: 5, y: 5 },
        Pos { x: 7, y: 7 }, Pos { x: 9, y: 9 }, Pos { x: 10, y: 10 }, Pos { x: 11, y: 11 },
        Pos { x: 12, y: 12 }, Pos { x: 12, y: 2 }, Pos { x: 11, y: 3 }, Pos { x: 10, y: 4 },
        Pos { x: 9, y: 5 }, Pos { x: 7, y: 7 }, Pos { x: 5, y: 9 }, Pos { x: 4, y: 10 },
        Pos { x: 3, y: 11 }, Pos { x: 2, y: 12 }, Pos { x: 0, y: 7 }, Pos { x: 7, y: 0 },
        Pos { x: 14, y: 7 }, Pos { x: 7, y: 14 },
    ];
    let invisible_walls: Vec<Pos> = Vec::new();
    let init_body: Vec<Pos> = vec![
        Pos { x: 2, y: 3 }, Pos { x: 2, y: 2 }, Pos { x: 2, y: 1 },
    ];
    Level { walls, invisible_walls, init_body, init_dir: Direction::Down }
}

/// Picks one of the layouts uniformly at random. Whichever is drawn, the
/// result is a well-formed layout and one of the two above.
pub fn choose_level() -> (l: Level)
    ensures
        l.wf(),
        l.init_body@ == initial_body(),
        l.init_dir == Direction::Down,
        (l.walls@ == level1_walls() && l.invisible_walls@ == level1_invisible_walls()) || (
        l.walls@ == level2_walls() && l.invisible_walls@ == Seq::<Pos>::empty()),
{
    let i = random_below(NUM_LEVELS);
    if i == 0 {
        level1()
    } else {
        level2()
    }
}

} // verus!
