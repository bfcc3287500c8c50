//! The game orchestrator: score, grid dimensions, the pending-growth flag,
//! and the food respawn policy.

use vstd::prelude::*;
use rand::Rng;
use crate::food::Food;
use crate::snake::Direction;
use crate::snake::Snake;
use crate::snake::SnakePiece;
use crate::snake::all_in_bounds;
use crate::snake::body_after_tail;
use crate::snake::cell_in_bounds;
use crate::snake::hits_wall;
use crate::snake::opposite;
use crate::snake::step_piece;

verus! {

/// Relies on rand: `thread_rng().gen_range(0..bound)` returns a sample
/// from the range, which is non-empty because `bound >= 1`.
#[verifier::external_body]
fn random_below(bound: u32) -> (r: u32)
    requires
        1 <= bound,
    ensures
        r < bound,
{
    rand::thread_rng().gen_range(0..bound)
}

/// Every cell of the grid is occupied by the snake's body.
pub open spec fn grid_full(body: Seq<SnakePiece>, cols: u32, rows: u32) -> bool {
    forall|x: u32, y: u32| x < cols && y < rows ==> #[trigger] body.contains(SnakePiece(x, y))
}

/// How many random samples are tried before the search falls back to a
/// deterministic scan of the whole grid.
pub const RESPAWN_RANDOM_TRIES: u32 = 32;

/// Pick a cell for new food: rejection-sample random cells, and after
/// `RESPAWN_RANDOM_TRIES` misses scan the grid for a free cell so the
/// search always terminates. Returns `None` only when the snake covers
/// the whole grid.
pub fn respawn_food(snake: &Snake, cols: u32, rows: u32) -> (r: Option<Food>)
    requires
        1 <= cols,
        1 <= rows,
    ensures
        match r {
            Some(f) => f.x < cols && f.y < rows && !snake.body().contains(f.cell()),
            None => grid_full(snake.body(), cols, rows),
        },
{
    let mut tries: u32 = 0;
    while tries < RESPAWN_RANDOM_TRIES
        invariant
            1 <= cols,
            1 <= rows,
        decreases RESPAWN_RANDOM_TRIES - tries,
    {
        let x = random_below(cols);
        let y = random_below(rows);
        if !snake.is_collide(x, y) {
            return Some(Food { x, y });
        }
        tries += 1;
    }
    let mut x: u32 = 0;
    while x < cols
        invariant
            x <= cols,
            1 <= rows,
            forall|a: u32, b: u32| a < x && b < rows ==> #[trigger] snake.body().contains(
                SnakePiece(a, b),
            ),
        decreases cols - x,
    {
        let mut y: u32 = 0;
        while y < rows
            invariant
                y <= rows,
                x < cols,
                forall|a: u32, b: u32| a < x && b < rows ==> #[trigger] snake.body().contains(
                    SnakePiece(a, b),
                ),
                forall|b: u32| b < y ==> #[trigger] snake.body().contains(SnakePiece(x, b)),
            decreases rows - y,
        {
            if !snake.is_collide(x, y) {
                return Some(Food { x, y });
            }
            y += 1;
        }
        x += 1;
    }
    None
}

pub struct Game {
    pub rows: u32,
    pub cols: u32,
    pub snake: Snake,
    /// Growth is pending: the snake reached the food on the last tick.
    pub eaten: bool,
    pub food: Food,
    pub score: u64,
}

impl Game {
    /// The game's invariant: a non-degenerate grid, a well-formed snake
    /// lying on the grid, food on the grid and off the snake, and a score
    /// that counts exactly the cells the snake has grown by.
    pub open spec fn wf(self) -> bool {
        &&& 1 <= self.rows
        &&& 1 <= self.cols
        &&& self.snake.wf()
        &&& all_in_bounds(self.snake.body(), self.cols, self.rows)
        &&& cell_in_bounds(self.food.cell(), self.cols, self.rows)
        &&& !self.snake.body().contains(self.food.cell())
        &&& self.snake.body().len() == self.score + 1
    }

    /// The cell the next update will try to move the head to.
    pub open spec fn next_head(self) -> SnakePiece {
        step_piece(self.snake.direction, self.snake.head())
    }

    /// The next update's move succeeds: it stays on the grid and does not
    /// land on a cell of the body that remains after the tail is handled.
    pub open spec fn can_move(self) -> bool {
        &&& !hits_wall(self.snake.direction, self.snake.head(), self.cols, self.rows)
        &&& !body_after_tail(self.snake.body(), self.eaten).contains(self.next_head())
    }

    /// The body after a successful move.
    pub open spec fn moved_body(self) -> Seq<SnakePiece> {
        seq![self.next_head()] + body_after_tail(self.snake.body(), self.eaten)
    }

    /// A fresh game: a single-cell snake at the grid's center moving DOWN,
    /// food at the seed cell (1, 1), score zero, no growth pending.
    /// The grid must be large enough that the seed cell lies on it and off
    /// the starting snake.
    pub fn new(rows: u32, cols: u32) -> (g: Game)
        requires
            2 <= rows,
            2 <= cols,
            !(cols / 2 == 1 && rows / 2 == 1),
        ensures
            g.wf(),
            g.rows == rows,
            g.cols == cols,
            g.snake.body() == seq![SnakePiece(cols / 2, rows / 2)],
            g.snake.direction == Direction::DOWN,
            g.food.x == 1 && g.food.y == 1,
            g.eaten == false,
            g.score == 0,
    {
        let mut parts: Vec<SnakePiece> = Vec::new();
        parts.push(SnakePiece(cols / 2, rows / 2));
        let g = Game {
            rows,
            cols,
            snake: Snake { snake_parts: parts, direction: Direction::DOWN },
            eaten: false,
            food: Food { x: 1, y: 1 },
            score: 0,
        };
        proof {
            assert(g.snake.body() =~= seq![SnakePiece(cols / 2, rows / 2)]);
            assert(g.snake.body()[0] != g.food.cell());
        }
        g
    }

    /// Store a directional press: the new direction takes effect on the
    /// next update, except that an exact reversal of the current direction
    /// is rejected and the stored direction stays as it was.
    pub fn pressed(&mut self, dir: Direction)
        ensures
            final(self).snake.direction == (if dir == opposite(old(self).snake.direction) {
                old(self).snake.direction
            } else {
                dir
            }),
            final(self).snake.snake_parts@ == old(self).snake.snake_parts@,
            final(self).rows == old(self).rows,
            final(self).cols == old(self).cols,
            final(self).eaten == old(self).eaten,
            final(self).food == old(self).food,
            final(self).score == old(self).score,
    {
        let last_direction = self.snake.direction;
        let reversal = match dir {
            Direction::UP => last_direction == Direction::DOWN,
            Direction::DOWN => last_direction == Direction::UP,
            Direction::LEFT => last_direction == Direction::RIGHT,
            Direction::RIGHT => last_direction == Direction::LEFT,
        };
        if !reversal {
            self.snake.direction = dir;
        }
    }

    /// One update tick. Moves the snake (growing it when growth was
    /// pending), then credits the pending food to the score, then checks
    /// whether the new head reached the food and, if so, respawns the food
    /// on a free cell. Returns false exactly when the game is over: the
    /// move failed (wall or self-collision), or — after a successful move —
    /// the snake covers the whole grid and no food can be placed.
    pub fn update(&mut self) -> (r: bool)
        requires
            old(self).wf(),
        ensures
            final(self).rows == old(self).rows,
            final(self).cols == old(self).cols,
            final(self).snake.direction == old(self).snake.direction,
            r ==> final(self).wf(),
            !old(self).can_move() ==> !r && final(self).snake.body() == old(self).snake.body()
                && final(self).food == old(self).food && final(self).eaten == old(self).eaten
                && final(self).score == old(self).score,
            old(self).can_move() ==> {
                &&& final(self).snake.body() == old(self).moved_body()
                &&& final(self).score == old(self).score + (if old(self).eaten {
                    1int
                } else {
                    0int
                })
                &&& final(self).eaten == (old(self).next_head() == old(self).food.cell())
                &&& (!final(self).eaten ==> r && final(self).food == old(self).food)
                &&& (final(self).eaten && r ==> cell_in_bounds(
                    final(self).food.cell(),
                    old(self).cols,
                    old(self).rows,
                ) && !final(self).snake.body().contains(final(self).food.cell()))
                &&& (final(self).eaten && !r ==> grid_full(
                    old(self).moved_body(),
                    old(self).cols,
                    old(self).rows,
                ) && final(self).food == old(self).food)
            },
    {
        if !self.snake.update(self.eaten, self.rows, self.cols) {
            return false;
        }
        if self.eaten {
            let l = self.snake.snake_parts.len();
            proof {
                assert(l == old(self).score + 2);
            }
            self.score = self.score + 1;
            self.eaten = false;
        }
        self.eaten = self.food.update(&self.snake);
        if self.eaten {
            proof {
                assert(old(self).next_head() == old(self).food.cell());
            }
            match respawn_food(&self.snake, self.cols, self.rows) {
                Some(f) => {
                    self.food = f;
                },
                None => {
                    return false;
                },
            }
        } else {
            proof {
                let moved = old(self).moved_body();
                let reduced = body_after_tail(old(self).snake.body(), old(self).eaten);
                assert forall|i: int| 0 <= i < moved.len() implies moved[i]
                    != old(self).food.cell() by {
                    if i > 0 {
                        assert(old(self).snake.body().contains(reduced[i - 1]));
                    }
                }
                assert(!self.snake.body().contains(self.food.cell()));
            }
        }
        true
    }
}

} // verus!
