//! The frame buffer: a fixed grid of cells, each a glyph with a
//! foreground and a background color. Out-of-range coordinates are a
//! caller error, never clamped. Serializing the grid to the terminal is
//! the display glue's business; it reads the cells back one by one.

use vstd::prelude::*;
use crate::color::Color;

verus! {

/// One cell: its glyph, foreground color, and background color.
pub type Cell = (char, Color, Color);

/// Every row of `g` has length `w`, there are `h` of them, and every
/// cell holds `fill`.
pub open spec fn spec_uniform_grid(g: Seq<Seq<Cell>>, w: int, h: int, fill: Cell) -> bool {
    &&& g.len() == h
    &&& forall|y: int| 0 <= y < h ==> (#[trigger] g[y]).len() == w
    &&& forall|y: int, x: int| 0 <= y < h && 0 <= x < w ==> #[trigger] g[y][x] == fill
}

/// The character grid; rows first, so a cell sits at `buffer[y][x]`.
pub struct Screen {
    pub buffer: Vec<Vec<Cell>>,
    pub size: (u16, u16),
}

impl Screen {
    /// The grid as a sequence of rows of cells.
    pub open spec fn grid(self) -> Seq<Seq<Cell>> {
        self.buffer@.map_values(|row: Vec<Cell>| row@)
    }

    /// A fresh grid of blanks in the terminal's default colors.
    pub fn new(term_size: (u16, u16)) -> (s: Screen)
        ensures
            s.size == term_size,
            spec_uniform_grid(
                s.grid(),
                term_size.0 as int,
                term_size.1 as int,
                (' ', Color::Reset, Color::Reset),
            ),
    {
        let buffer = uniform_buffer(term_size, (' ', Color::Reset, Color::Reset));
        Screen { buffer, size: term_size }
    }

    /// Resets every cell to a blank in the given foreground and
    /// background colors; the recorded size is left alone.
    pub fn flush(&mut self, term_size: (u16, u16), colors: (Color, Color))
        ensures
            final(self).size == old(self).size,
            spec_uniform_grid(
                final(self).grid(),
                term_size.0 as int,
                term_size.1 as int,
                (' ', colors.0, colors.1),
            ),
    {
        self.buffer = uniform_buffer(term_size, (' ', colors.0, colors.1));
    }

    /// Writes the glyph and foreground of one cell; its background and
    /// every other cell are kept.
    pub fn set(&mut self, pos: (u16, u16), value: (char, Color))
        requires
            pos.1 < old(self).grid().len(),
            pos.0 < old(self).grid()[pos.1 as int].len(),
        ensures
            final(self).size == old(self).size,
            final(self).grid() == old(self).grid().update(
                pos.1 as int,
                old(self).grid()[pos.1 as int].update(
                    pos.0 as int,
                    (value.0, value.1, old(self).grid()[pos.1 as int][pos.0 as int].2),
                ),
            ),
    {
        let yi = pos.1 as usize;
        let xi = pos.0 as usize;
        let bg = self.buffer[yi][xi].2;
        self.buffer[yi][xi] = (value.0, value.1, bg);
        proof {
            assert(self.grid() =~~= old(self).grid().update(
                pos.1 as int,
                old(self).grid()[pos.1 as int].update(
                    pos.0 as int,
                    (value.0, value.1, old(self).grid()[pos.1 as int][pos.0 as int].2),
                ),
            ));
        }
    }

    /// Writes the background of one cell; its glyph, its foreground and
    /// every other cell are kept.
    pub fn set_bg(&mut self, pos: (u16, u16), bg_col: Color)
        requires
            pos.1 < old(self).grid().len(),
            pos.0 < old(self).grid()[pos.1 as int].len(),
        ensures
            final(self).size == old(self).size,
            final(self).grid() == old(self).grid().update(
                pos.1 as int,
                old(self).grid()[pos.1 as int].update(
                    pos.0 as int,
                    (
                        old(self).grid()[pos.1 as int][pos.0 as int].0,
                        old(self).grid()[pos.1 as int][pos.0 as int].1,
                        bg_col,
                    ),
                ),
            ),
    {
        let yi = pos.1 as usize;
        let xi = pos.0 as usize;
        let cell = self.buffer[yi][xi];
        self.buffer[yi][xi] = (cell.0, cell.1, bg_col);
        proof {
            assert(self.grid() =~~= old(self).grid().update(
                pos.1 as int,
                old(self).grid()[pos.1 as int].update(
                    pos.0 as int,
                    (
                        old(self).grid()[pos.1 as int][pos.0 as int].0,
                        old(self).grid()[pos.1 as int][pos.0 as int].1,
                        bg_col,
                    ),
                ),
            ));
        }
    }

    /// Reads one cell back, for the display glue to serialize.
    pub fn get(&self, pos: (u16, u16)) -> (c: Cell)
        requires
            pos.1 < self.grid().len(),
            pos.0 < self.grid()[pos.1 as int].len(),
        ensures
            c == self.grid()[pos.1 as int][pos.0 as int],
    {
        self.buffer[pos.1 as usize][pos.0 as usize]
    }
}

/// Builds a `term_size.1` by `term_size.0` grid holding `fill` everywhere.
fn uniform_buffer(term_size: (u16, u16), fill: Cell) -> (buffer: Vec<Vec<Cell>>)
    ensures
        spec_uniform_grid(
            buffer@.map_values(|row: Vec<Cell>| row@),
            term_size.0 as int,
            term_size.1 as int,
            fill,
        ),
{
    let mut buffer: Vec<Vec<Cell>> = Vec::new();
    for y in 0..term_size.1
        invariant
            buffer@.len() == y,
            forall|i: int| 0 <= i < y ==> (#[trigger] buffer@[i])@.len() == term_size.0,
            forall|i: int, x: int|
                0 <= i < y && 0 <= x < term_size.0 ==> #[trigger] buffer@[i]@[x] == fill,
    {
        let mut row: Vec<Cell> = Vec::new();
        for x in 0..term_size.0
            invariant
                row@.len() == x,
                forall|j: int| 0 <= j < x ==> #[trigger] row@[j] == fill,
        {
            row.push(fill);
        }
        buffer.push(row);
    }
    buffer
}

} // verus!
