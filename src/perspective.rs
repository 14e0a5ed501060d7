use vstd::prelude::*;

use crate::region::Region;

verus! {

/// Reads a region of bytes as a grid with a fixed number of columns.
///
/// The last row of the grid may be partial. With `flip_row_order` set, the
/// rows are numbered from the bottom of the grid up: displayed row `r` stands
/// for grid row `last_row_idx - r`. This changes coordinates only, never the
/// bytes.
#[derive(Clone, Copy, Debug, PartialEq, Eq, Structural)]
pub struct Perspective {
    pub region: Region,
    pub cols: usize,
    pub flip_row_order: bool,
}

/// `span == last_row * cols + last_col` with `last_col < cols`, and every
/// offset up to `span` lies in a row up to `last_row`.
proof fn lemma_grid_split(span: int, cols: int)
    requires
        span >= 0,
        cols >= 1,
    ensures
        span == (span / cols) * cols + span % cols,
        0 <= span % cols < cols,
        0 <= span / cols <= span,
        span < (span / cols + 1) * cols,
{
    vstd::arithmetic::div_mod::lemma_fundamental_div_mod(span, cols);
    vstd::arithmetic::div_mod::lemma_mod_pos_bound(span, cols);
    vstd::arithmetic::div_mod::lemma_div_pos_is_pos(span, cols);
    vstd::arithmetic::div_mod::lemma_div_is_ordered_by_denominator(span, 1, cols);
    assert((span / cols) * cols == cols * (span / cols)) by (nonlinear_arith);
    assert((span / cols + 1) * cols == (span / cols) * cols + cols) by (nonlinear_arith);
}

/// A row at or below the last row starts at most `span` past the region's
/// first byte, and a row past it starts beyond `span`.
proof fn lemma_row_start(g: int, cols: int, span: int)
    requires
        span >= 0,
        cols >= 1,
        g >= 0,
    ensures
        g <= span / cols ==> g * cols <= (span / cols) * cols <= span,
        g > span / cols ==> g * cols > span,
{
    lemma_grid_split(span, cols);
    if g <= span / cols {
        assert(g * cols <= (span / cols) * cols) by (nonlinear_arith)
            requires
                g <= span / cols,
                cols >= 1,
        ;
    } else {
        assert(g * cols >= (span / cols + 1) * cols) by (nonlinear_arith)
            requires
                g >= span / cols + 1,
                cols >= 1,
        ;
    }
}

impl Perspective {
    pub open spec fn wf(self) -> bool {
        self.region.wf() && self.cols >= 1
    }

    /// Distance from the first to the last byte of the region.
    pub open spec fn span(self) -> int {
        self.region.end - self.region.begin
    }

    /// Index of the grid row that holds the region's last byte.
    pub open spec fn last_row(self) -> int {
        self.span() / self.cols as int
    }

    /// Index of the column that holds the region's last byte.
    pub open spec fn last_col(self) -> int {
        self.span() % self.cols as int
    }

    /// The grid row that displayed row `row` stands for.
    pub open spec fn grid_row(self, row: int) -> int {
        if self.flip_row_order {
            self.last_row() - row
        } else {
            row
        }
    }

    /// The offset of a cell, before it is held to the region.
    pub open spec fn raw_offset(self, row: int, col: int) -> int {
        self.region.begin + self.grid_row(row) * self.cols + col
    }

    /// The offset of a cell, clamped to the region.
    pub open spec fn offset_of(self, row: int, col: int) -> int {
        let raw = self.raw_offset(row, col);
        if raw < self.region.begin {
            self.region.begin as int
        } else if raw > self.region.end {
            self.region.end as int
        } else {
            raw
        }
    }

    /// The displayed (row, col) of an offset. Offsets before the region count
    /// as its first byte.
    pub open spec fn row_col_of(self, offset: int) -> (int, int) {
        let rel = if offset >= self.region.begin {
            offset - self.region.begin
        } else {
            0
        };
        let row = rel / self.cols as int;
        let shown = if !self.flip_row_order {
            row
        } else if row <= self.last_row() {
            self.last_row() - row
        } else {
            0
        };
        (shown, rel % self.cols as int)
    }

    /// Whether a cell is a column of the grid whose byte lies in the region.
    pub open spec fn within_bound(self, row: int, col: int) -> bool {
        0 <= col < self.cols && self.region.contains(self.raw_offset(row, col))
    }

    /// A perspective over `region` with `cols` columns and rows in order.
    pub fn from_region(region: Region, cols: usize) -> (r: Perspective)
        requires
            region.wf(),
            cols >= 1,
        ensures
            r.wf(),
            r.region == region,
            r.cols == cols,
            !r.flip_row_order,
    {
        Perspective { region, cols, flip_row_order: false }
    }

    pub fn last_row_idx(&self) -> (r: usize)
        requires
            self.wf(),
        ensures
            r == self.last_row(),
    {
        proof {
            lemma_grid_split(self.span(), self.cols as int);
        }
        (self.region.end - self.region.begin) / self.cols
    }

    pub fn last_col_idx(&self) -> (r: usize)
        requires
            self.wf(),
        ensures
            r == self.last_col(),
    {
        proof {
            lemma_grid_split(self.span(), self.cols as int);
        }
        (self.region.end - self.region.begin) % self.cols
    }

    /// The byte offset shown at a displayed cell, held to the region: a cell
    /// before the region gives its first byte, one past it its last byte.
    pub fn byte_offset_of_row_col(&self, row: usize, col: usize) -> (r: usize)
        requires
            self.wf(),
        ensures
            r == self.offset_of(row as int, col as int),
            self.region.contains(r as int),
    {
        let begin = self.region.begin;
        let end = self.region.end;
        let span = end - begin;
        let cols = self.cols;
        proof {
            lemma_grid_split(span as int, cols as int);
        }
        let last = span / cols;
        if self.flip_row_order && row > last {
            let d = row - last;
            assert(self.grid_row(row as int) * cols == -(d * cols)) by (nonlinear_arith)
                requires
                    self.grid_row(row as int) == -d,
            ;
            match d.checked_mul(cols) {
                None => begin,
                Some(m) => {
                    if col < m {
                        begin
                    } else if col - m > span {
                        end
                    } else {
                        begin + (col - m)
                    }
                },
            }
        } else {
            let g = if self.flip_row_order {
                last - row
            } else {
                row
            };
            assert(self.grid_row(row as int) == g);
            assert(g * cols >= 0) by (nonlinear_arith)
                requires
                    g >= 0,
                    cols >= 0,
            ;
            match g.checked_mul(cols) {
                None => end,
                Some(gc) => match gc.checked_add(col) {
                    None => end,
                    Some(rel) => {
                        if rel > span {
                            end
                        } else {
                            begin + rel
                        }
                    },
                },
            }
        }
    }

    /// The displayed (row, col) of a byte offset.
    pub fn row_col_of_byte_offset(&self, offset: usize) -> (r: (usize, usize))
        requires
            self.wf(),
        ensures
            (r.0 as int, r.1 as int) == self.row_col_of(offset as int),
    {
        let rel = offset.saturating_sub(self.region.begin);
        let row = rel / self.cols;
        let col = rel % self.cols;
        if self.flip_row_order {
            let last = self.last_row_idx();
            (last.saturating_sub(row), col)
        } else {
            (row, col)
        }
    }

    /// Whether the displayed cell (row, col) is a column of the grid whose
    /// byte lies within the region. Cells in the unused part of a partial
    /// last row are out of bounds.
    pub fn row_col_within_bound(&self, row: usize, col: usize) -> (r: bool)
        requires
            self.wf(),
        ensures
            r == self.within_bound(row as int, col as int),
    {
        let span = self.region.end - self.region.begin;
        let cols = self.cols;
        if col >= cols {
            return false;
        }
        let last = self.last_row_idx();
        if row > last {
            proof {
                lemma_row_start(row as int, cols as int, span as int);
                if self.flip_row_order {
                    let d = row - last;
                    assert(self.grid_row(row as int) * cols <= -cols) by (nonlinear_arith)
                        requires
                            self.grid_row(row as int) == -d,
                            d >= 1,
                            cols >= 1,
                    ;
                }
            }
            return false;
        }
        let g = if self.flip_row_order {
            last - row
        } else {
            row
        };
        proof {
            lemma_row_start(g as int, cols as int, span as int);
        }
        let gc = g * cols;
        col <= span - gc
    }
}

/// Reading an offset of the region as a displayed cell and that cell back as
/// an offset gives the offset again, and the cell lies within bounds.
pub proof fn lemma_offset_round_trip(p: Perspective, offset: int)
    requires
        p.wf(),
        p.region.contains(offset),
    ensures
        p.offset_of(p.row_col_of(offset).0, p.row_col_of(offset).1) == offset,
        p.within_bound(p.row_col_of(offset).0, p.row_col_of(offset).1),
{
    let cols = p.cols as int;
    let rel = offset - p.region.begin;
    lemma_grid_split(rel, cols);
    lemma_grid_split(p.span(), cols);
    vstd::arithmetic::div_mod::lemma_div_is_ordered(rel, p.span(), cols);
    let (row, col) = p.row_col_of(offset);
    assert(p.grid_row(row) == rel / cols);
    assert(p.raw_offset(row, col) == offset);
}

} // verus!
