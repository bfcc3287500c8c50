//! The snake: an ordered body of grid cells (head first) and a direction.

use vstd::prelude::*;

verus! {

/// A direction of movement on the grid.
#[allow(non_camel_case_types)]
#[derive(Clone, Copy, PartialEq, Eq, Structural, Debug)]
pub enum Direction {
    UP,
    DOWN,
    LEFT,
    RIGHT,
}

/// The direction that points exactly the opposite way.
pub open spec fn opposite(d: Direction) -> Direction {
    match d {
        Direction::UP => Direction::DOWN,
        Direction::DOWN => Direction::UP,
        Direction::LEFT => Direction::RIGHT,
        Direction::RIGHT => Direction::LEFT,
    }
}

/// One cell of the snake's body, addressed as (x, y) with
/// 0 <= x < cols and 0 <= y < rows.
#[derive(Clone, Copy, PartialEq, Eq, Structural, Debug)]
pub struct SnakePiece(pub u32, pub u32);

/// The cell lies inside a grid of the given dimensions.
pub open spec fn cell_in_bounds(p: SnakePiece, cols: u32, rows: u32) -> bool {
    p.0 < cols && p.1 < rows
}

/// Every cell of the sequence lies inside the grid.
pub open spec fn all_in_bounds(s: Seq<SnakePiece>, cols: u32, rows: u32) -> bool {
    forall|i: int| 0 <= i < s.len() ==> cell_in_bounds(#[trigger] s[i], cols, rows)
}

/// No two entries of the sequence name the same cell.
pub open spec fn distinct_cells(s: Seq<SnakePiece>) -> bool {
    forall|i: int, j: int| 0 <= i < j < s.len() ==> s[i] != s[j]
}

/// Advancing one step from `head` in direction `d` would leave the grid.
pub open spec fn hits_wall(d: Direction, head: SnakePiece, cols: u32, rows: u32) -> bool {
    ||| (d == Direction::UP && head.1 == 0)
    ||| (d == Direction::LEFT && head.0 == 0)
    ||| (d == Direction::DOWN && head.1 == rows - 1)
    ||| (d == Direction::RIGHT && head.0 == cols - 1)
}

/// The cell one step from `p` in direction `d`.
/// Meaningful when the step stays on the grid, i.e. `!hits_wall`.
pub open spec fn step_piece(d: Direction, p: SnakePiece) -> SnakePiece {
    match d {
        Direction::UP => SnakePiece(p.0, (p.1 - 1) as u32),
        Direction::DOWN => SnakePiece(p.0, (p.1 + 1) as u32),
        Direction::LEFT => SnakePiece((p.0 - 1) as u32, p.1),
        Direction::RIGHT => SnakePiece((p.0 + 1) as u32, p.1),
    }
}

/// The body against which a new head is checked: when food was eaten the
/// tail is kept (the snake grows), otherwise the tail cell drops off.
pub open spec fn body_after_tail(s: Seq<SnakePiece>, eaten: bool) -> Seq<SnakePiece> {
    if eaten {
        s
    } else {
        s.drop_last()
    }
}

pub struct Snake {
    /// Body cells, head first, tail last.
    pub snake_parts: Vec<SnakePiece>,
    /// Direction the next update will move the head in.
    pub direction: Direction,
}

impl Snake {
    /// The body as a mathematical sequence of cells.
    pub open spec fn body(self) -> Seq<SnakePiece> {
        self.snake_parts@
    }

    /// The head cell.
    pub open spec fn head(self) -> SnakePiece {
        self.snake_parts@[0]
    }

    /// Well-formed: never empty, and no cell occupied twice.
    pub open spec fn wf(self) -> bool {
        self.snake_parts@.len() >= 1 && distinct_cells(self.snake_parts@)
    }

    /// True iff (x, y) is one of the first `n` body cells.
    fn collides_prefix(&self, n: usize, x: u32, y: u32) -> (r: bool)
        requires
            n <= self.snake_parts@.len(),
        ensures
            r == self.body().subrange(0, n as int).contains(SnakePiece(x, y)),
    {
        let mut i: usize = 0;
        while i < n
            invariant
                i <= n,
                n <= self.snake_parts@.len(),
                forall|k: int| 0 <= k < i ==> #[trigger] self.snake_parts@[k] != SnakePiece(x, y),
            decreases n - i,
        {
            let p = self.snake_parts[i];
            if p.0 == x && p.1 == y {
                assert(self.body().subrange(0, n as int)[i as int] == SnakePiece(x, y));
                return true;
            }
            i += 1;
        }
        assert forall|k: int| 0 <= k < n implies self.body().subrange(0, n as int)[k]
            != SnakePiece(x, y) by {
            assert(self.snake_parts@[k] != SnakePiece(x, y));
        }
        false
    }

    /// Advance the snake one step in its current direction.
    ///
    /// Fails (returns false, signalling game over) when the step would
    /// leave a `cols` x `rows` grid, or when the new head would land on a
    /// body cell that remains after the tail is handled: the tail cell is
    /// kept when `eaten` (the body grows by one) and dropped otherwise
    /// (the length stays constant). On failure the body is left unchanged.
    pub fn update(&mut self, eaten: bool, rows: u32, cols: u32) -> (r: bool)
        requires
            old(self).wf(),
            all_in_bounds(old(self).body(), cols, rows),
            1 <= rows,
            1 <= cols,
        ensures
            final(self).direction == old(self).direction,
            r == (!hits_wall(old(self).direction, old(self).head(), cols, rows)
                && !body_after_tail(old(self).body(), eaten).contains(
                step_piece(old(self).direction, old(self).head()),
            )),
            r ==> final(self).body() == seq![
                step_piece(old(self).direction, old(self).head()),
            ] + body_after_tail(old(self).body(), eaten),
            r ==> final(self).head() == step_piece(old(self).direction, old(self).head()),
            r ==> final(self).body().len() == old(self).body().len() + (if eaten {
                1int
            } else {
                0int
            }),
            !r ==> final(self).body() == old(self).body(),
            final(self).wf(),
            r ==> all_in_bounds(final(self).body(), cols, rows),
    {
        let head = self.snake_parts[0];
        let d = self.direction;
        proof {
            assert(cell_in_bounds(old(self).body()[0], cols, rows));
        }
        let wall = match d {
            Direction::UP => head.1 == 0,
            Direction::LEFT => head.0 == 0,
            Direction::DOWN => head.1 == rows - 1,
            Direction::RIGHT => head.0 == cols - 1,
        };
        if wall {
            return false;
        }
        let new_front = match d {
            Direction::UP => SnakePiece(head.0, head.1 - 1),
            Direction::DOWN => SnakePiece(head.0, head.1 + 1),
            Direction::LEFT => SnakePiece(head.0 - 1, head.1),
            Direction::RIGHT => SnakePiece(head.0 + 1, head.1),
        };
        let keep: usize = if eaten {
            self.snake_parts.len()
        } else {
            self.snake_parts.len() - 1
        };
        proof {
            assert(self.body().subrange(0, keep as int) =~= body_after_tail(
                old(self).body(),
                eaten,
            ));
        }
        if self.collides_prefix(keep, new_front.0, new_front.1) {
            return false;
        }
        if !eaten {
            self.snake_parts.pop();
        }
        self.snake_parts.insert(0, new_front);
        proof {
            let reduced = body_after_tail(old(self).body(), eaten);
            assert(self.body() =~= seq![new_front] + reduced);
            assert forall|i: int, j: int|
                0 <= i < j < self.body().len() implies self.body()[i] != self.body()[j] by {
                if i == 0 {
                    assert(reduced[j - 1] != new_front);
                } else {
                    assert(old(self).body()[i - 1] != old(self).body()[j - 1]);
                }
            }
        }
        true
    }

    /// Pixel position of every body cell, grid-scaled by the cell size
    /// `square`, in body order (head first). Rendering itself happens
    /// outside this crate.
    pub fn render_positions(&self, square: u32) -> (r: Vec<(u64, u64)>)
        ensures
            r@.len() == self.body().len(),
            forall|k: int| 0 <= k < r@.len() ==> (#[trigger] r@[k]).0 == self.body()[k].0 as int
                * square as int && r@[k].1 == self.body()[k].1 as int * square as int,
    {
        let mut r: Vec<(u64, u64)> = Vec::new();
        let mut i: usize = 0;
        while i < self.snake_parts.len()
            invariant
                i <= self.snake_parts@.len(),
                r@.len() == i,
                forall|k: int| 0 <= k < i ==> (#[trigger] r@[k]).0 == self.snake_parts@[k].0 as int
                    * square as int && r@[k].1 == self.snake_parts@[k].1 as int * square as int,
            decreases self.snake_parts@.len() - i,
        {
            let p = self.snake_parts[i];
            proof {
                assert((p.0 as u64) * (square as u64) <= 0xffff_ffff * 0xffff_ffff
                    && (p.1 as u64) * (square as u64) <= 0xffff_ffff * 0xffff_ffff)
                    by (nonlinear_arith)
                    requires
                        p.0 as u64 <= 0xffff_ffff,
                        p.1 as u64 <= 0xffff_ffff,
                        square as u64 <= 0xffff_ffff,
                ;
            }
            let px = (p.0 as u64) * (square as u64);
            let py = (p.1 as u64) * (square as u64);
            r.push((px, py));
            i += 1;
        }
        r
    }

    /// True iff (x, y) matches some current body cell.
    pub fn is_collide(&self, x: u32, y: u32) -> (r: bool)
        ensures
            r == self.body().contains(SnakePiece(x, y)),
    {
        let n = self.snake_parts.len();
        let r = self.collides_prefix(n, x, y);
        proof {
            assert(self.body().subrange(0, n as int) =~= self.body());
        }
        r
    }
}

} // verus!
