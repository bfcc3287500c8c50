//! The food: a single grid cell the snake is trying to reach.

use vstd::prelude::*;
use crate::snake::Snake;
use crate::snake::SnakePiece;

verus! {

pub struct Food {
    pub x: u32,
    pub y: u32,
}

impl Food {
    /// The food's cell as a grid cell value.
    pub open spec fn cell(self) -> SnakePiece {
        SnakePiece(self.x, self.y)
    }

    /// True iff the snake's head sits exactly on the food.
    /// A pure observation: the food itself is not changed.
    pub fn update(&self, s: &Snake) -> (r: bool)
        requires
            s.body().len() >= 1,
        ensures
            r == (s.head() == self.cell()),
    {
        let front = s.snake_parts[0];
        front.0 == self.x && front.1 == self.y
    }

    /// Pixel position of the food cell, grid-scaled by the cell size
    /// `square`. Rendering itself happens outside this crate.
    pub fn render_position(&self, square: u32) -> (r: (u64, u64))
        ensures
            r.0 == self.x as int * square as int,
            r.1 == self.y as int * square as int,
    {
        proof {
            assert((self.x as u64) * (square as u64) <= 0xffff_ffff * 0xffff_ffff
                && (self.y as u64) * (square as u64) <= 0xffff_ffff * 0xffff_ffff)
                by (nonlinear_arith)
                requires
                    self.x as u64 <= 0xffff_ffff,
                    self.y as u64 <= 0xffff_ffff,
                    square as u64 <= 0xffff_ffff,
            ;
        }
        ((self.x as u64) * (square as u64), (self.y as u64) * (square as u64))
    }
}

} // verus!
