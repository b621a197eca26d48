//! Where the terminal renderer draws: the screen is divided into a grid of
//! 10x20 pixel cells, centered when the resolution is not a multiple of the
//! cell size.
use vstd::prelude::*;
use crate::drivers::tty::Position;

verus! {

/// The width of a character cell, in pixels.
pub const CELL_WIDTH: usize = 10;

/// The height of a character cell, in pixels.
pub const CELL_HEIGHT: usize = 20;

/// A pixel position as drawn: `(x, y)`, the coordinates being converted to
/// `i32` as the drawing library wants them.
pub open spec fn origin_of(x_border: usize, y_border: usize, p: Position) -> (int, int) {
    (
        (x_border as i32) as int + (p.x as i32) as int * 10,
        (y_border as i32) as int + (p.y as i32) as int * 20 + 20,
    )
}

/// The pixel coordinates of a cell can be computed in `i32` without overflow,
/// step by step.
pub open spec fn cell_fits(x_border: usize, y_border: usize, p: Position) -> bool {
    let (x, y) = origin_of(x_border, y_border, p);
    &&& i32::MIN <= (p.x as i32) as int * 10
    &&& (p.x as i32) as int * 10 <= i32::MAX
    &&& i32::MIN <= (p.y as i32) as int * 20
    &&& (p.y as i32) as int * 20 <= i32::MAX
    &&& i32::MIN <= (y_border as i32) as int + (p.y as i32) as int * 20
    &&& (y_border as i32) as int + (p.y as i32) as int * 20 <= i32::MAX
    &&& i32::MIN <= x && x <= i32::MAX
    &&& i32::MIN <= y && y <= i32::MAX
}

/// The number of columns and lines of the character grid on a screen of
/// `width * height` pixels: the whole cells that fit.
pub fn grid_dimensions(width: usize, height: usize) -> (r: (usize, usize))
    ensures
        r.0 == width / CELL_WIDTH,
        r.1 == height / CELL_HEIGHT,
{
    (width / CELL_WIDTH, height / CELL_HEIGHT)
}

/// The renderer of a terminal: the framebuffer it draws to, and the borders
/// that center the character grid on the screen.
pub struct TerminalRenderer<F> {
    framebuffer: F,
    x_border: usize,
    y_border: usize,
}

impl<F> TerminalRenderer<F> {
    /// The offset from the left border of the screen.
    pub closed spec fn spec_x_border(&self) -> usize {
        self.x_border
    }

    /// The offset from the top border of the screen.
    pub closed spec fn spec_y_border(&self) -> usize {
        self.y_border
    }

    /// The framebuffer drawn to.
    pub closed spec fn spec_framebuffer(&self) -> F {
        self.framebuffer
    }

    /// Creates a renderer for a framebuffer of `width * height` pixels, used in
    /// full: the character grid is centered by half the pixels that do not
    /// make up a whole cell.
    pub fn new(framebuffer: F, width: usize, height: usize) -> (r: Self)
        ensures
            r.spec_x_border() == width % 10 / 2,
            r.spec_y_border() == height % 20 / 2,
            r.spec_framebuffer() == framebuffer,
    {
        Self { x_border: width % CELL_WIDTH / 2, y_border: height % CELL_HEIGHT / 2, framebuffer }
    }

    /// The offset from the left border of the screen, in pixels.
    pub fn x_border(&self) -> (r: usize)
        ensures
            r == self.spec_x_border(),
    {
        self.x_border
    }

    /// The offset from the top border of the screen, in pixels.
    pub fn y_border(&self) -> (r: usize)
        ensures
            r == self.spec_y_border(),
    {
        self.y_border
    }

    /// The framebuffer drawn to.
    pub fn framebuffer(&self) -> (r: &F)
        ensures
            *r == self.spec_framebuffer(),
    {
        &self.framebuffer
    }

    /// The baseline origin of the character drawn at `position`: the left of
    /// its cell, and the bottom of its cell (the text is drawn above its
    /// baseline).
    pub fn char_origin(&self, position: Position) -> (r: (i32, i32))
        requires
            cell_fits(self.spec_x_border(), self.spec_y_border(), position),
        ensures
            (r.0 as int, r.1 as int) == origin_of(self.spec_x_border(), self.spec_y_border(), position),
    {
        let x = self.x_border as i32 + position.x as i32 * 10;
        let y = self.y_border as i32 + position.y as i32 * 20 + 20;
        (x, y)
    }

    /// The segment drawn as the cursor at `cursor`: the bottom line of its
    /// cell, 10 pixels wide.
    pub fn cursor_line(&self, cursor: Position) -> (r: ((i32, i32), (i32, i32)))
        requires
            cell_fits(self.spec_x_border(), self.spec_y_border(), cursor),
            origin_of(self.spec_x_border(), self.spec_y_border(), cursor).0 + 9 <= i32::MAX,
        ensures
            ((r.0).0 as int, (r.0).1 as int) == origin_of(
                self.spec_x_border(),
                self.spec_y_border(),
                cursor,
            ),
            (r.1).0 == (r.0).0 + 9,
            (r.1).1 == (r.0).1,
    {
        let start = self.char_origin(cursor);
        let end = (start.0 + 9, start.1);
        (start, end)
    }
}

/// The character grid, centered by the borders, fits within the screen: the
/// borders are less than half a cell, and the last cell of a line or a column
/// ends before the edge.
pub proof fn lemma_grid_fits_screen(width: nat, height: nat)
    ensures
        width % 10 / 2 < 5,
        height % 20 / 2 < 10,
        width % 10 / 2 + (width / 10) * 10 <= width,
        height % 20 / 2 + (height / 20) * 20 <= height,
{
    vstd::arithmetic::div_mod::lemma_fundamental_div_mod(width as int, 10);
    vstd::arithmetic::div_mod::lemma_fundamental_div_mod(height as int, 20);
}

} // verus!
