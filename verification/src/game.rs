//! The top-level game state: level-derived data, body, food registry,
//! simulation clock, score, and the Playing/Paused/GameOver state machine.
//!
//! Time is measured in integer milliseconds. The external host loop feeds
//! elapsed time into `advance` and classified input events into
//! `submit_input`; each simulation tick consumes one queued direction,
//! moves the body, resolves collisions and food pickup, and runs the food
//! lifecycle.

use vstd::prelude::*;
use crate::geom::{Pos, Direction, in_board, stepped, step_from, contains_pos};
use crate::body::{Body, lemma_distinct_cells_bound};
use crate::food::{FoodRegistry, FoodItem, FoodKind, CANDY_SCORE};
use crate::level::{Level, choose_level, initial_body, level1_walls, level1_invisible_walls,
    level2_walls};

verus! {

/// Tick interval a session starts from, in milliseconds.
pub const INITIAL_INTERVAL_MS: u64 = 500;

/// How much each food pickup shortens the tick interval, in milliseconds.
pub const INTERVAL_DECREMENT_MS: u64 = 2;

/// Floor of the tick interval: the speed ramp never pushes the interval
/// below this, so the tick count per frame stays bounded.
pub const MIN_INTERVAL_MS: u64 = 50;

/// The finite-state machine of a session.
#[derive(PartialEq, Eq, Structural, Clone, Copy, Debug)]
pub enum State {
    Playing,
    Paused,
    GameOver,
}

/// A classified input event, as handed in by the excluded input layer.
#[derive(PartialEq, Eq, Structural, Clone, Copy, Debug)]
pub enum InputEvent {
    /// A directional signal.
    Turn(Direction),
    /// The pause toggle.
    Pause,
    /// The restart signal.
    Restart,
}

/// The whole simulation state.
pub struct Game {
    /// The player-controlled body.
    pub body: Body,
    /// The food registry.
    pub foods: FoodRegistry,
    /// Rendered wall cells of the chosen layout.
    pub walls: Vec<Pos>,
    /// Collidable but never-rendered cells of the chosen layout.
    pub invisible_walls: Vec<Pos>,
    /// Current state of the session's state machine.
    pub state: State,
    /// Accumulated score.
    pub score: u32,
    /// Current tick interval in milliseconds; shortens as food is consumed.
    pub interval_ms: u64,
    /// Elapsed time not yet converted into ticks, in milliseconds.
    pub acc_ms: u64,
}

impl Game {
    /// The state invariant that every tick preserves: the body is well
    /// formed and self-overlap-free, the food registry is well formed and
    /// sits clear of body and walls, the tick interval stays between its
    /// floor and its initial value, and the score is bounded by the body's
    /// growth (each consumed item scores at most `CANDY_SCORE` and grows
    /// the body by one cell).
    pub open spec fn wf_core(self) -> bool {
        &&& self.body.wf()
        &&& self.body.cells@.no_duplicates()
        &&& self.foods.wf()
        &&& self.foods.clear_of(self.body.cells@, self.walls@, self.invisible_walls@)
        &&& MIN_INTERVAL_MS <= self.interval_ms <= INITIAL_INTERVAL_MS
        &&& self.score as int <= CANDY_SCORE as int * self.body.cells@.len()
    }

    /// Full well-formedness between host calls: the core invariant, and an
    /// accumulator that never exceeds the initial interval while a run can
    /// still tick.
    pub open spec fn wf(self) -> bool {
        &&& self.wf_core()
        &&& self.state != State::GameOver ==> self.acc_ms <= INITIAL_INTERVAL_MS
    }

    /// The cell the next tick would move the head onto.
    pub open spec fn tentative_spec(self) -> Pos {
        stepped(self.body.head_spec(), self.body.next_direction_spec())
    }

    /// Whether moving onto `p` kills: `p` is a wall cell, an invisible wall
    /// cell, or occupied by the (pre-move) body.
    pub open spec fn blocked_spec(self, p: Pos) -> bool {
        ||| self.walls@.contains(p)
        ||| self.invisible_walls@.contains(p)
        ||| self.body.cells@.contains(p)
    }

    /// How one simulation tick relates the state before (`pre`) and after
    /// (`post`); this is exactly what `tick_once` promises, as a relation,
    /// so that `advance` can speak of iterated ticks. A blocked move ends
    /// the run with everything else untouched. A committed move consumes
    /// the next direction, moves the body (growing it on pickup, with the
    /// score and the speed ramp), and then runs the food lifecycle: the
    /// consumed slot is cleared, surviving items age by one tick and expire
    /// past their lifetime, and a fresh item sits only on a board cell that
    /// is clear of the post-move body and of all walls and held no item
    /// when the tick began.
    pub open spec fn tick_spec(pre: Game, post: Game) -> bool {
        &&& post.wf_core()
        &&& post.acc_ms == pre.acc_ms
        &&& post.walls == pre.walls
        &&& post.invisible_walls == pre.invisible_walls
        &&& post.interval_ms <= pre.interval_ms
        &&& post.score >= pre.score
        &&& (pre.blocked_spec(pre.tentative_spec()) ==> post == (Game {
            state: State::GameOver,
            ..pre
        }))
        &&& (!pre.blocked_spec(pre.tentative_spec()) ==> ({
            let t = pre.tentative_spec();
            let apple0 = (if pre.foods.apple matches Some(a) && a.pos == t {
                None::<FoodItem>
            } else {
                pre.foods.apple
            });
            let candy0 = (if pre.foods.candy matches Some(c) && c.pos == t {
                None::<FoodItem>
            } else {
                pre.foods.candy
            });
            &&& post.state == State::Playing
            &&& post.body.last_direction == pre.body.last_direction
            &&& post.body.pending@ == (if pre.body.pending.len() == 0 {
                pre.body.pending@
            } else {
                pre.body.pending@.skip(1)
            })
            &&& (pre.foods.food_at_spec(t) matches Some(item) ==> {
                &&& post.score == pre.score + item.kind.score_spec()
                &&& post.body.cells@ == seq![t] + pre.body.cells@
                &&& post.interval_ms == (if pre.interval_ms - INTERVAL_DECREMENT_MS
                    >= MIN_INTERVAL_MS {
                    (pre.interval_ms - INTERVAL_DECREMENT_MS) as u64
                } else {
                    MIN_INTERVAL_MS
                })
                &&& post.foods.food_at_spec(t) is None
            })
            &&& (pre.foods.food_at_spec(t) is None ==> {
                &&& post.score == pre.score
                &&& post.body.cells@ == seq![t] + pre.body.cells@.drop_last()
                &&& post.interval_ms == pre.interval_ms
            })
            &&& (apple0 is Some ==> post.foods.apple == FoodRegistry::aged_slot(apple0))
            &&& (candy0 is Some ==> post.foods.candy == FoodRegistry::aged_slot(candy0))
            &&& (apple0 is None ==> (match post.foods.apple {
                None => true,
                Some(a) => {
                    &&& a.kind == FoodKind::Apple
                    &&& a.age == 1
                    &&& in_board(a.pos)
                    &&& !post.body.cells@.contains(a.pos)
                    &&& !pre.walls@.contains(a.pos)
                    &&& !pre.invisible_walls@.contains(a.pos)
                    &&& pre.foods.food_at_spec(a.pos) is None
                },
            }))
            &&& (candy0 is None ==> (match post.foods.candy {
                None => true,
                Some(c) => {
                    &&& c.kind == FoodKind::Candy
                    &&& c.age == 1
                    &&& in_board(c.pos)
                    &&& !post.body.cells@.contains(c.pos)
                    &&& !pre.walls@.contains(c.pos)
                    &&& !pre.invisible_walls@.contains(c.pos)
                    &&& pre.foods.food_at_spec(c.pos) is None
                },
            }))
        }))
    }

    /// One scheduler step inside `advance`: one full interval is consumed
    /// from the accumulator and one tick runs as `tick_spec` describes.
    pub open spec fn tick_advanced(pre: Game, post: Game) -> bool {
        &&& pre.state == State::Playing
        &&& pre.acc_ms > pre.interval_ms
        &&& Game::tick_spec(
            Game { acc_ms: (pre.acc_ms - pre.interval_ms) as u64, ..pre },
            post,
        )
    }

    /// Whether `post` is reached from `pre` by exactly `n` scheduler steps.
    pub open spec fn ticks_reach(pre: Game, post: Game, n: nat) -> bool
        decreases n,
    {
        if n == 0 {
            post == pre
        } else {
            exists|mid: Game|
                #[trigger] Game::tick_advanced(pre, mid) && Game::ticks_reach(
                    mid,
                    post,
                    (n - 1) as nat,
                )
        }
    }

    /// Whether `post` is reached from `pre` by some number of scheduler
    /// steps.
    pub open spec fn ticks_reachable(pre: Game, post: Game) -> bool {
        exists|n: nat| #[trigger] Game::ticks_reach(pre, post, n)
    }

    /// A fresh game over the given layout: playing, score 0, empty food
    /// registry, initial interval, and the accumulator primed so the first
    /// elapsed millisecond triggers the first tick.
    pub fn with_level(l: Level) -> (g: Game)
        requires
            l.wf(),
        ensures
            g.wf(),
            g.state == State::Playing,
            g.score == 0,
            g.interval_ms == INITIAL_INTERVAL_MS,
            g.acc_ms == INITIAL_INTERVAL_MS,
            g.body.cells@ == l.init_body@,
            g.body.pending@ == Seq::<Direction>::empty(),
            g.body.last_direction == l.init_dir,
            g.foods.apple is None,
            g.foods.candy is None,
            g.walls == l.walls,
            g.invisible_walls == l.invisible_walls,
    {
        let Level { walls, invisible_walls, init_body, init_dir } = l;
        Game {
            body: Body::new(init_body, init_dir),
            foods: FoodRegistry::empty(),
            walls,
            invisible_walls,
            state: State::Playing,
            score: 0,
            interval_ms: INITIAL_INTERVAL_MS,
            acc_ms: INITIAL_INTERVAL_MS,
        }
    }

    /// A fresh game over a layout chosen uniformly at random.
    pub fn new() -> (g: Game)
        ensures
            g.wf(),
            g.state == State::Playing,
            g.score == 0,
            g.interval_ms == INITIAL_INTERVAL_MS,
            g.acc_ms == INITIAL_INTERVAL_MS,
            g.body.cells@ == initial_body(),
            g.body.pending@ == Seq::<Direction>::empty(),
            g.body.last_direction == Direction::Down,
            g.foods.apple is None,
            g.foods.candy is None,
            (g.walls@ == level1_walls() && g.invisible_walls@ == level1_invisible_walls()) || (
            g.walls@ == level2_walls() && g.invisible_walls@ == Seq::<Pos>::empty()),
    {
        let l = choose_level();
        Game::with_level(l)
    }

    /// Runs exactly one simulation tick. The tentative new head is computed
    /// from the next queued (or last accepted) direction; landing on a wall,
    /// an invisible wall, or the pre-move body ends the run with everything
    /// else untouched. Otherwise the move commits: a live item on the target
    /// cell is consumed — growing the body by one cell, adding the item's
    /// score, and shortening the tick interval by its decrement down to the
    /// floor — and the food registry then ages, expires and spawns items.
    pub fn tick_once(&mut self) -> (over: bool)
        requires
            old(self).wf_core(),
            old(self).state == State::Playing,
        ensures
            over == (final(self).state == State::GameOver),
            Game::tick_spec(*old(self), *final(self)),
    {
        let d = self.body.next_direction();
        let head = self.body.head();
        let t = step_from(head, d);
        if contains_pos(&self.walls, t) || contains_pos(&self.invisible_walls, t)
            || self.body.occupies(t) {
            self.state = State::GameOver;
            return true;
        }
        let eaten = self.foods.take_at(t);
        match eaten {
            Some(item) => {
                proof {
                    lemma_distinct_cells_bound(self.body.cells@);
                }
                self.score = self.score + item.kind.score();
                if self.interval_ms - INTERVAL_DECREMENT_MS >= MIN_INTERVAL_MS {
                    self.interval_ms = self.interval_ms - INTERVAL_DECREMENT_MS;
                } else {
                    self.interval_ms = MIN_INTERVAL_MS;
                }
                self.body.step(true);
            },
            None => {
                self.body.step(false);
            },
        }
        proof {
            let oldc = old(self).body.cells@;
            let newc = self.body.cells@;
            assert forall|p: Pos| newc.contains(p) implies (p == t || oldc.contains(p)) by {
                let i = choose|i: int| 0 <= i < newc.len() && newc[i] == p;
                if i > 0 {
                    assert(oldc[i - 1] == p);
                }
            }
            assert forall|i: int, j: int|
                0 <= i < newc.len() && 0 <= j < newc.len() && i != j implies newc[i]
                != newc[j] by {
                if i > 0 && j > 0 {
                    assert(newc[i] == oldc[i - 1] && newc[j] == oldc[j - 1]);
                } else if i == 0 && j > 0 {
                    assert(newc[j] == oldc[j - 1]);
                    assert(oldc.contains(oldc[j - 1]));
                } else if j == 0 && i > 0 {
                    assert(newc[i] == oldc[i - 1]);
                    assert(oldc.contains(oldc[i - 1]));
                }
            }
            assert(newc.no_duplicates());
            assert(newc.contains(t)) by {
                assert(newc[0] == t);
            }
        }
        self.foods.tick(&self.body.cells, &self.walls, &self.invisible_walls);
        false
    }

    /// Feeds `dt_ms` elapsed milliseconds into the simulation clock. In
    /// `Paused` or `GameOver` the call changes nothing. In `Playing` the
    /// accumulator grows by `dt_ms` and one tick runs for each full interval
    /// accumulated, stopping at once if a tick ends the run. Returns the
    /// final score when this call entered `GameOver`, for the host to
    /// report.
    pub fn advance(&mut self, dt_ms: u64) -> (ended: Option<u32>)
        requires
            old(self).wf(),
            dt_ms <= u64::MAX - INITIAL_INTERVAL_MS,
        ensures
            final(self).wf(),
            old(self).state != State::Playing ==> *final(self) == *old(self) && ended is None,
            old(self).state == State::Playing ==> {
                &&& final(self).walls == old(self).walls
                &&& final(self).invisible_walls == old(self).invisible_walls
                &&& (final(self).state == State::Playing || final(self).state == State::GameOver)
                &&& final(self).interval_ms <= old(self).interval_ms
                &&& final(self).score >= old(self).score
                // every full interval accumulated was converted into a tick,
                // unless a tick ended the run first
                &&& (final(self).state == State::Playing
                    ==> final(self).acc_ms <= final(self).interval_ms)
            },
            (ended is Some) == (old(self).state == State::Playing && final(self).state
                == State::GameOver),
            ended matches Some(s) ==> s == final(self).score,
            old(self).state == State::Playing && old(self).acc_ms + dt_ms <= old(self).interval_ms
                ==> *final(self) == (Game {
                acc_ms: (old(self).acc_ms + dt_ms) as u64,
                ..*old(self)
            }) && ended is None,
            // the scheduler really ran the ticks: the final state is reached
            // from the old one (with the elapsed time accumulated) by a
            // chain of scheduler steps, each consuming one interval and
            // ticking as `tick_spec` describes
            old(self).state == State::Playing ==> Game::ticks_reachable(
                Game { acc_ms: (old(self).acc_ms + dt_ms) as u64, ..*old(self) },
                *final(self),
            ),
    {
        match self.state {
            State::Paused | State::GameOver => {
                return None;
            },
            State::Playing => {},
        }
        self.acc_ms = self.acc_ms + dt_ms;
        let ghost start = *self;
        let ghost mut steps: nat = 0;
        let mut running = true;
        while running && self.acc_ms > self.interval_ms
            invariant
                self.wf_core(),
                running ==> self.state == State::Playing,
                !running ==> self.state == State::GameOver,
                self.walls == old(self).walls,
                self.invisible_walls == old(self).invisible_walls,
                self.interval_ms <= old(self).interval_ms,
                self.score >= old(self).score,
                start == (Game { acc_ms: (old(self).acc_ms + dt_ms) as u64, ..*old(self) }),
                Game::ticks_reach(start, *self, steps),
                old(self).acc_ms + dt_ms <= old(self).interval_ms ==> {
                    &&& running
                    &&& self.body == old(self).body
                    &&& self.foods == old(self).foods
                    &&& self.score == old(self).score
                    &&& self.interval_ms == old(self).interval_ms
                    &&& self.state == State::Playing
                    &&& self.acc_ms == old(self).acc_ms + dt_ms
                },
            decreases self.acc_ms,
        {
            let ghost pre_iter = *self;
            self.acc_ms = self.acc_ms - self.interval_ms;
            let over = self.tick_once();
            if over {
                running = false;
            }
            proof {
                assert(Game::tick_advanced(pre_iter, *self));
                lemma_ticks_reach_snoc(start, pre_iter, *self, steps);
                steps = steps + 1;
            }
        }
        proof {
            assert(Game::ticks_reach(start, *self, steps));
            assert(Game::ticks_reachable(start, *self));
        }
        if running {
            None
        } else {
            Some(self.score)
        }
    }

    /// The food snapshot for the renderer: position, kind, and blink
    /// visibility hint of each live item, in the order of the registry's
    /// view. Invisible walls are never part of any render snapshot.
    pub fn render_foods(&self) -> (r: Vec<(Pos, FoodKind, bool)>)
        requires
            self.foods.wf(),
        ensures
            r@.len() == self.foods.items().len(),
            forall|i: int|
                0 <= i < r@.len() ==> r@[i] == ((
                    self.foods.items()[i].pos,
                    self.foods.items()[i].kind,
                    self.foods.items()[i].visible_spec(),
                )),
    {
        let mut r: Vec<(Pos, FoodKind, bool)> = Vec::new();
        match self.foods.apple {
            Some(a) => {
                r.push((a.pos, a.kind, a.visibility_hint()));
            },
            None => {},
        }
        match self.foods.candy {
            Some(c) => {
                r.push((c.pos, c.kind, c.visibility_hint()));
            },
            None => {},
        }
        r
    }

    /// Applies one classified input event: a directional signal goes to the
    /// body's pending queue (subject to the reversal filter and the depth
    /// bound), the pause signal toggles between `Playing` and `Paused`, and
    /// the restart signal re-initializes everything from a freshly chosen
    /// layout.
    pub fn submit_input(&mut self, ev: InputEvent)
        requires
            old(self).wf(),
        ensures
            final(self).wf(),
            ev matches InputEvent::Turn(d) ==> Body::queued_spec(old(self).body, final(self).body, d)
                && *final(self) == (Game { body: final(self).body, ..*old(self) }),
            ev is Pause && old(self).state == State::Playing ==> *final(self) == (Game {
                state: State::Paused,
                ..*old(self)
            }),
            ev is Pause && old(self).state == State::Paused ==> *final(self) == (Game {
                state: State::Playing,
                ..*old(self)
            }),
            ev is Pause && old(self).state == State::GameOver ==> *final(self) == *old(self),
            ev is Restart ==> {
                &&& final(self).state == State::Playing
                &&& final(self).score == 0
                &&& final(self).interval_ms == INITIAL_INTERVAL_MS
                &&& final(self).acc_ms == INITIAL_INTERVAL_MS
                &&& final(self).body.cells@ == initial_body()
                &&& final(self).body.pending@ == Seq::<Direction>::empty()
                &&& final(self).body.last_direction == Direction::Down
                &&& final(self).foods.apple is None
                &&& final(self).foods.candy is None
                &&& ((final(self).walls@ == level1_walls() && final(self).invisible_walls@
                    == level1_invisible_walls()) || (final(self).walls@ == level2_walls()
                    && final(self).invisible_walls@ == Seq::<Pos>::empty()))
            },
    {
        match ev {
            InputEvent::Restart => {
                *self = Game::new();
            },
            InputEvent::Pause => {
                match self.state {
                    State::Playing => {
                        self.state = State::Paused;
                    },
                    State::Paused => {
                        self.state = State::Playing;
                    },
                    State::GameOver => {},
                }
            },
            InputEvent::Turn(d) => {
                self.body.queue_direction(d);
            },
        }
    }
}

/// A chain of scheduler steps grows at its end: one more step after `n`
/// steps makes a chain of `n + 1` steps.
proof fn lemma_ticks_reach_snoc(a: Game, b: Game, c: Game, n: nat)
    requires
        Game::ticks_reach(a, b, n),
        Game::tick_advanced(b, c),
    ensures
        Game::ticks_reach(a, c, n + 1),
    decreases n,
{
    if n == 0 {
        assert(b == a);
        assert(Game::tick_advanced(a, c) && Game::ticks_reach(c, c, 0));
    } else {
        let mid = choose|mid: Game|
            #[trigger] Game::tick_advanced(a, mid) && Game::ticks_reach(mid, b, (n - 1) as nat);
        lemma_ticks_reach_snoc(mid, b, c, (n - 1) as nat);
        assert(Game::tick_advanced(a, mid) && Game::ticks_reach(mid, c, n));
    }
}

} // verus!
