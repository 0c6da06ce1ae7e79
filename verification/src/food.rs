//! Food lifecycle: the two food kinds, live food items, and the registry
//! that spawns, ages, expires and hands out at most one item of each kind.

use vstd::prelude::*;
use crate::geom::{Pos, in_board, contains_pos, BOARD_WIDTH, BOARD_HEIGHT};
use crate::rng::random_below;

verus! {

/// Score awarded for an apple.
pub const APPLE_SCORE: u32 = 10;

/// Ticks an apple stays on the board before it expires.
pub const APPLE_LIFETIME: u32 = 45;

/// Per-tick spawn chance of an apple, in percent: certain.
pub const APPLE_CHANCE: u32 = 100;

/// Score awarded for a candy.
pub const CANDY_SCORE: u32 = 50;

/// Ticks a candy stays on the board before it expires.
pub const CANDY_LIFETIME: u32 = 15;

/// Per-tick spawn chance of a candy, in percent: rare.
pub const CANDY_CHANCE: u32 = 1;

/// Spawn rolls are drawn below this and compared against a kind's chance.
pub const CHANCE_DENOM: u32 = 100;

/// An item close enough to expiry blinks: within this many ticks of its
/// lifetime it is reported hidden on even ages.
pub const BLINK_WINDOW: u32 = 6;

/// The two kinds of food.
#[derive(PartialEq, Eq, Structural, Clone, Copy, Debug)]
pub enum FoodKind {
    Apple,
    Candy,
}

impl FoodKind {
    /// Score this kind is worth.
    pub open spec fn score_spec(self) -> u32 {
        match self {
            FoodKind::Apple => APPLE_SCORE,
            FoodKind::Candy => CANDY_SCORE,
        }
    }

    /// Ticks an item of this kind may live.
    pub open spec fn lifetime_spec(self) -> u32 {
        match self {
            FoodKind::Apple => APPLE_LIFETIME,
            FoodKind::Candy => CANDY_LIFETIME,
        }
    }

    /// Per-tick spawn chance of this kind, in percent.
    pub open spec fn chance_spec(self) -> u32 {
        match self {
            FoodKind::Apple => APPLE_CHANCE,
            FoodKind::Candy => CANDY_CHANCE,
        }
    }

    /// Score this kind is worth.
    pub fn score(self) -> (s: u32)
        ensures
            s == self.score_spec(),
    {
        match self {
            FoodKind::Apple => APPLE_SCORE,
            FoodKind::Candy => CANDY_SCORE,
        }
    }

    /// Ticks an item of this kind may live.
    pub fn lifetime(self) -> (t: u32)
        ensures
            t == self.lifetime_spec(),
    {
        match self {
            FoodKind::Apple => APPLE_LIFETIME,
            FoodKind::Candy => CANDY_LIFETIME,
        }
    }

    /// Per-tick spawn chance of this kind, in percent.
    pub fn chance(self) -> (c: u32)
        ensures
            c == self.chance_spec(),
    {
        match self {
            FoodKind::Apple => APPLE_CHANCE,
            FoodKind::Candy => CANDY_CHANCE,
        }
    }
}

/// A live food item: its kind, the cell it sits on, and its age in ticks.
#[derive(PartialEq, Eq, Structural, Clone, Copy, Debug)]
pub struct FoodItem {
    pub kind: FoodKind,
    pub pos: Pos,
    pub age: u32,
}

impl FoodItem {
    /// Well-formedness: the item sits on the board and has not outlived its
    /// kind's lifetime.
    pub open spec fn wf(self) -> bool {
        &&& in_board(self.pos)
        &&& self.age <= self.kind.lifetime_spec()
    }

    /// The blink signal for the renderer: hidden when the item is within
    /// `BLINK_WINDOW` ticks of expiry and its age is even, visible
    /// otherwise. A pure reading of the item, never a mutation.
    pub open spec fn visible_spec(self) -> bool {
        !(self.kind.lifetime_spec() - self.age < BLINK_WINDOW && self.age % 2 == 0)
    }

    /// The blink signal for the renderer.
    pub fn visibility_hint(&self) -> (r: bool)
        requires
            self.age <= self.kind.lifetime_spec(),
        ensures
            r == self.visible_spec(),
    {
        !(self.kind.lifetime() - self.age < BLINK_WINDOW && self.age % 2 == 0)
    }
}

/// The food registry: at most one live item of each kind.
pub struct FoodRegistry {
    /// The live apple, if one is on the board.
    pub apple: Option<FoodItem>,
    /// The live candy, if one is on the board.
    pub candy: Option<FoodItem>,
}

impl FoodRegistry {
    /// The slot of a kind.
    pub open spec fn slot_spec(self, k: FoodKind) -> Option<FoodItem> {
        match k {
            FoodKind::Apple => self.apple,
            FoodKind::Candy => self.candy,
        }
    }

    /// The registry's contents as a sequence: the live apple, if any,
    /// followed by the live candy, if any.
    pub open spec fn items(self) -> Seq<FoodItem> {
        (match self.apple {
            Some(a) => seq![a],
            None => Seq::<FoodItem>::empty(),
        }) + (match self.candy {
            Some(c) => seq![c],
            None => Seq::<FoodItem>::empty(),
        })
    }

    /// Well-formedness: each slot holds only its own kind, every item is
    /// well formed, and two live items never share a cell.
    pub open spec fn wf(self) -> bool {
        &&& match self.apple {
            Some(a) => a.kind == FoodKind::Apple && a.wf(),
            None => true,
        }
        &&& match self.candy {
            Some(c) => c.kind == FoodKind::Candy && c.wf(),
            None => true,
        }
        &&& match (self.apple, self.candy) {
            (Some(a), Some(c)) => a.pos != c.pos,
            _ => true,
        }
    }

    /// The live item sitting on `p`, if any.
    pub open spec fn food_at_spec(self, p: Pos) -> Option<FoodItem> {
        if self.apple matches Some(a) && a.pos == p {
            self.apple
        } else if self.candy matches Some(c) && c.pos == p {
            self.candy
        } else {
            None
        }
    }

    /// No live item sits on a cell of `body`, `walls` or `invisible`.
    pub open spec fn clear_of(self, body: Seq<Pos>, walls: Seq<Pos>, invisible: Seq<Pos>) -> bool {
        &&& match self.apple {
            Some(a) => !body.contains(a.pos) && !walls.contains(a.pos) && !invisible.contains(
                a.pos,
            ),
            None => true,
        }
        &&& match self.candy {
            Some(c) => !body.contains(c.pos) && !walls.contains(c.pos) && !invisible.contains(
                c.pos,
            ),
            None => true,
        }
    }

    /// A cell a fresh item may spawn on: on the board and free of the body,
    /// every wall, and every live item.
    pub open spec fn spawn_free(
        self,
        p: Pos,
        body: Seq<Pos>,
        walls: Seq<Pos>,
        invisible: Seq<Pos>,
    ) -> bool {
        &&& in_board(p)
        &&& !body.contains(p)
        &&& !walls.contains(p)
        &&& !invisible.contains(p)
        &&& self.food_at_spec(p) is None
    }

    /// How one tick ages a slot: the item grows one tick older and is
    /// removed once its age exceeds its kind's lifetime.
    pub open spec fn aged_slot(s: Option<FoodItem>) -> Option<FoodItem> {
        match s {
            None => None,
            Some(i) => if i.age + 1 > i.kind.lifetime_spec() {
                None
            } else {
                Some(FoodItem { kind: i.kind, pos: i.pos, age: (i.age + 1) as u32 })
            },
        }
    }

    /// An empty registry: food starts absent on every (re)start.
    pub fn empty() -> (r: FoodRegistry)
        ensures
            r.apple is None,
            r.candy is None,
            r.wf(),
    {
        FoodRegistry { apple: None, candy: None }
    }

    /// Whether a live item sits on `p`.
    pub fn has_food_at(&self, p: Pos) -> (r: bool)
        ensures
            r == (self.food_at_spec(p) is Some),
    {
        match self.apple {
            Some(a) => if a.pos == p {
                return true;
            },
            None => {},
        }
        match self.candy {
            Some(c) => if c.pos == p {
                return true;
            },
            None => {},
        }
        false
    }

    /// Removes and returns the live item on `p`, if one is there; the other
    /// slot is untouched.
    pub fn take_at(&mut self, p: Pos) -> (r: Option<FoodItem>)
        requires
            old(self).wf(),
        ensures
            final(self).wf(),
            r == old(self).food_at_spec(p),
            final(self).apple == (if old(self).apple matches Some(a) && a.pos == p {
                None::<FoodItem>
            } else {
                old(self).apple
            }),
            final(self).candy == (if old(self).candy matches Some(c) && c.pos == p {
                None::<FoodItem>
            } else {
                old(self).candy
            }),
    {
        match self.apple {
            Some(a) => if a.pos == p {
                self.apple = None;
                return Some(a);
            },
            None => {},
        }
        match self.candy {
            Some(c) => if c.pos == p {
                self.candy = None;
                return Some(c);
            },
            None => {},
        }
        None
    }

    /// Puts a fresh item of `kind` with age 0 on `pos`. The kind must be
    /// absent and the cell free of food.
    pub fn spawn_at(&mut self, kind: FoodKind, pos: Pos)
        requires
            old(self).wf(),
            old(self).slot_spec(kind) is None,
            old(self).food_at_spec(pos) is None,
            in_board(pos),
        ensures
            final(self).wf(),
            final(self).slot_spec(kind) == Some(FoodItem { kind, pos, age: 0 }),
            kind != FoodKind::Apple ==> final(self).apple == old(self).apple,
            kind != FoodKind::Candy ==> final(self).candy == old(self).candy,
    {
        let item = FoodItem { kind, pos, age: 0 };
        match kind {
            FoodKind::Apple => self.apple = Some(item),
            FoodKind::Candy => self.candy = Some(item),
        }
    }

    /// Ages every live item by one tick and removes those whose age now
    /// exceeds their kind's lifetime.
    pub fn age_and_expire(&mut self)
        requires
            old(self).wf(),
        ensures
            final(self).wf(),
            final(self).apple == Self::aged_slot(old(self).apple),
            final(self).candy == Self::aged_slot(old(self).candy),
    {
        match self.apple {
            Some(i) => {
                if i.age + 1 > i.kind.lifetime() {
                    self.apple = None;
                } else {
                    self.apple = Some(FoodItem { kind: i.kind, pos: i.pos, age: i.age + 1 });
                }
            },
            None => {},
        }
        match self.candy {
            Some(i) => {
                if i.age + 1 > i.kind.lifetime() {
                    self.candy = None;
                } else {
                    self.candy = Some(FoodItem { kind: i.kind, pos: i.pos, age: i.age + 1 });
                }
            },
            None => {},
        }
    }

    /// Every cell a fresh item may spawn on right now, in row-major order.
    fn free_cells(&self, body: &Vec<Pos>, walls: &Vec<Pos>, invisible: &Vec<Pos>) -> (r: Vec<Pos>)
        ensures
            forall|i: int|
                0 <= i < r.len() ==> self.spawn_free(#[trigger] r@[i], body@, walls@, invisible@),
            forall|p: Pos| self.spawn_free(p, body@, walls@, invisible@) ==> r@.contains(p),
            r.len() <= BOARD_WIDTH as int * BOARD_HEIGHT as int,
    {
        let mut r: Vec<Pos> = Vec::new();
        let mut x: i8 = 0;
        while x < BOARD_WIDTH
            invariant
                0 <= x <= BOARD_WIDTH,
                forall|i: int|
                    0 <= i < r.len() ==> self.spawn_free(
                        #[trigger] r@[i],
                        body@,
                        walls@,
                        invisible@,
                    ),
                forall|p: Pos|
                    self.spawn_free(p, body@, walls@, invisible@) && p.x < x ==> r@.contains(p),
                r.len() <= x as int * BOARD_HEIGHT as int,
            decreases BOARD_WIDTH - x,
        {
            let mut y: i8 = 0;
            while y < BOARD_HEIGHT
                invariant
                    0 <= x < BOARD_WIDTH,
                    0 <= y <= BOARD_HEIGHT,
                    forall|i: int|
                        0 <= i < r.len() ==> self.spawn_free(
                            #[trigger] r@[i],
                            body@,
                            walls@,
                            invisible@,
                        ),
                    forall|p: Pos|
                        self.spawn_free(p, body@, walls@, invisible@) && (p.x < x || (p.x == x
                            && p.y < y)) ==> r@.contains(p),
                    r.len() <= x as int * BOARD_HEIGHT as int + y as int,
                decreases BOARD_HEIGHT - y,
            {
                let ghost r0 = r@;
                let p = Pos { x, y };
                if !contains_pos(body, p) && !contains_pos(walls, p) && !contains_pos(invisible, p)
                    && !self.has_food_at(p) {
                    r.push(p);
                }
                proof {
                    assert forall|q: Pos|
                        self.spawn_free(q, body@, walls@, invisible@) && (q.x < x || (q.x == x
                            && q.y < y + 1)) implies r@.contains(q) by {
                        if q.x == x && q.y == y {
                            assert(q == p);
                            assert(r@[r@.len() - 1] == p);
                        } else {
                            assert(r0.contains(q));
                            let j = choose|j: int| 0 <= j < r0.len() && r0[j] == q;
                            assert(r@[j] == q);
                        }
                    }
                }
                y += 1;
            }
            x += 1;
        }
        r
    }

    /// One tick of the food lifecycle. For each kind currently absent, a
    /// spawn roll is drawn against the kind's chance and, on success, a
    /// fresh item is placed on a cell drawn from the free cells of the
    /// board; when no free cell exists the attempt is skipped. Every live
    /// item then ages by one tick and expired items are removed. Spawn
    /// positions are random, so only their freedom is promised: a fresh
    /// item sits on a board cell that is clear of the body and walls and
    /// held no item when the tick began. The apple, whose chance is
    /// certain, is promised to spawn whenever a free cell exists.
    pub fn tick(&mut self, body: &Vec<Pos>, walls: &Vec<Pos>, invisible: &Vec<Pos>)
        requires
            old(self).wf(),
            old(self).clear_of(body@, walls@, invisible@),
        ensures
            final(self).wf(),
            final(self).clear_of(body@, walls@, invisible@),
            old(self).apple is Some ==> final(self).apple == Self::aged_slot(old(self).apple),
            old(self).candy is Some ==> final(self).candy == Self::aged_slot(old(self).candy),
            old(self).apple is None ==> match final(self).apple {
                None => true,
                Some(a) => a.kind == FoodKind::Apple && a.age == 1 && in_board(a.pos)
                    && !body@.contains(a.pos) && !walls@.contains(a.pos) && !invisible@.contains(
                    a.pos,
                ) && old(self).food_at_spec(a.pos) is None,
            },
            old(self).candy is None ==> match final(self).candy {
                None => true,
                Some(c) => c.kind == FoodKind::Candy && c.age == 1 && in_board(c.pos)
                    && !body@.contains(c.pos) && !walls@.contains(c.pos) && !invisible@.contains(
                    c.pos,
                ) && old(self).food_at_spec(c.pos) is None,
            },
            old(self).apple is None && (exists|p: Pos|
                old(self).spawn_free(p, body@, walls@, invisible@)) ==> final(self).apple is Some,
    {
        if self.apple.is_none() {
            let roll = random_below(CHANCE_DENOM);
            if roll < APPLE_CHANCE {
                let free = self.free_cells(body, walls, invisible);
                proof {
                    if exists|p: Pos| self.spawn_free(p, body@, walls@, invisible@) {
                        let p = choose|p: Pos| self.spawn_free(p, body@, walls@, invisible@);
                        assert(free@.contains(p));
                        assert(free@.len() > 0);
                    }
                }
                if free.len() > 0 {
                    let idx = random_below(free.len() as u32);
                    let p = free[idx as usize];
                    self.spawn_at(FoodKind::Apple, p);
                }
            }
        }
        if self.candy.is_none() {
            let roll = random_below(CHANCE_DENOM);
            if roll < CANDY_CHANCE {
                let free = self.free_cells(body, walls, invisible);
                if free.len() > 0 {
                    let idx = random_below(free.len() as u32);
                    let p = free[idx as usize];
                    self.spawn_at(FoodKind::Candy, p);
                }
            }
        }
        self.age_and_expire();
    }
}

/// Mutual exclusion law: a well-formed registry holds at most one live
/// item of each kind — any two items of its view that share a kind are the
/// same item.
pub proof fn lemma_at_most_one_per_kind(r: FoodRegistry)
    requires
        r.wf(),
    ensures
        forall|i: int, j: int|
            0 <= i < r.items().len() && 0 <= j < r.items().len() && r.items()[i].kind
                == r.items()[j].kind ==> i == j,
{
}

} // verus!
