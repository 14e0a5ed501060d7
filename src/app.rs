use vstd::prelude::*;
use vstd::view::View as _;

use crate::damage::{widen_ok, widened, DamageTracker};
use crate::memmap_accessor::SourceAccessEnum;
use crate::source_access::{SingleBufferAccessor, SourceAttributes};

verus! {

/// How editing behaves.
#[derive(Clone, Copy, Debug, PartialEq, Eq, Structural)]
pub struct Preferences {
    /// Commit after every keystroke, not only when the cell is full.
    pub quick_edit: bool,
    /// Keep the cursor on the edited byte after a commit.
    pub sticky_edit: bool,
    /// Save after every commit.
    pub auto_save: bool,
}

/// Why a byte or a range was not written.
#[derive(Clone, Copy, Debug, PartialEq, Eq, Structural)]
pub enum CommitError {
    /// The typed text does not spell a byte.
    InvalidValue,
    /// The source may not be written: it was opened read-only, or it is a
    /// memory mapping.
    ReadOnly,
    /// The offsets lie past the end of the data.
    OutOfBounds,
}

/// Why there is nothing to save.
#[derive(Clone, Copy, Debug, PartialEq, Eq, Structural)]
pub enum SaveError {
    /// No file is open.
    NoFile,
    /// The file was opened read-only, or is mapped.
    ReadOnly,
}

/// What a save writes: the bytes `begin..end` of the data, at
/// `seek + begin` in the file.
#[derive(Clone, Copy, Debug, PartialEq, Eq, Structural)]
pub struct SavePlan {
    pub seek: u64,
    pub begin: usize,
    pub end: usize,
}

/// The editing session: the data, what kind of source it came from, the
/// bytes changed since the last save, and the edit cursor.
pub struct App {
    pub data: SourceAccessEnum,
    /// What kind of source is open, if any
    pub source: Option<SourceAttributes>,
    pub dirty_region: DamageTracker,
    /// The editing byte offset
    pub cursor: usize,
    pub preferences: Preferences,
    /// Where in the file the data starts
    pub hard_seek: Option<u64>,
    /// Where the plain grid of bytes stands on screen
    pub grid: GridLayout,
}

/// A plain grid of bytes on screen, scrolled by pixels.
#[derive(Clone, Copy, Debug, PartialEq, Eq, Structural)]
pub struct GridLayout {
    pub view: View,
    /// Width of a column, in pixels
    pub col_width: u8,
    /// Height of a row, in pixels
    pub row_height: u8,
    /// Height of the panel above the grid, in pixels
    pub top_gap: i64,
    /// The x pixel offset of the scrollable view
    pub view_x: i64,
    /// The y pixel offset of the scrollable view
    pub view_y: i64,
    /// Keep the column when the column count changes
    pub col_change_lock_x: bool,
    /// Keep the row when the column count changes
    pub col_change_lock_y: bool,
}

impl GridLayout {
    /// The (row, col, byte) where the grid starts showing from.
    pub open spec fn offsets(self) -> (int, int, int) {
        let row = cells_of(self.view_y + self.top_gap, self.row_height as int);
        let col = cells_of(self.view_x as int, self.col_width as int);
        (row, col, row * self.view.cols + col)
    }

    /// `offsets` can be computed in the machine's integers.
    pub open spec fn offsets_fit(self) -> bool {
        let o = self.offsets();
        &&& self.row_height > 0
        &&& self.col_width > 0
        &&& i64::MIN <= self.view_y + self.top_gap <= i64::MAX
        &&& o.0 <= usize::MAX
        &&& o.1 <= usize::MAX
        &&& o.2 <= usize::MAX
    }

    /// The grid scrolled to the row and column of `offset`, on the locked
    /// axes.
    pub open spec fn set_to(self, offset: int) -> GridLayout {
        let cols = self.view.cols as int;
        GridLayout {
            view_x: if self.col_change_lock_x {
                ((offset % cols) * self.col_width) as i64
            } else {
                self.view_x
            },
            view_y: if self.col_change_lock_y {
                ((offset / cols) * self.row_height - self.top_gap) as i64
            } else {
                self.view_y
            },
            ..self
        }
    }

    /// `set_to(offset)` can be computed in the machine's integers.
    pub open spec fn set_fits(self, offset: int) -> bool {
        let cols = self.view.cols as int;
        &&& cols >= 1
        &&& self.col_change_lock_x ==> (offset % cols) * self.col_width <= i64::MAX
        &&& self.col_change_lock_y ==> (offset / cols) * self.row_height <= i64::MAX
        &&& self.col_change_lock_y ==> i64::MIN <= (offset / cols) * self.row_height - self.top_gap
            <= i64::MAX
    }

    /// The grid with another column count.
    pub open spec fn with_cols(self, cols: int) -> GridLayout {
        GridLayout { view: View { cols: cols as usize, ..self.view }, ..self }
    }

    /// The grid scrolled so that `offset` stands 200 pixels in from the
    /// top left corner.
    pub open spec fn centered_on(self, offset: int) -> GridLayout {
        let cols = self.view.cols as int;
        GridLayout {
            view_x: ((offset % cols) * self.col_width - 200) as i64,
            view_y: ((offset / cols) * self.row_height - 200) as i64,
            ..self
        }
    }

    /// The grid as a session starts with it.
    pub open spec fn initial() -> GridLayout {
        GridLayout {
            view: View { start_offset: 0, rows: 67, cols: 48 },
            col_width: 26,
            row_height: 16,
            top_gap: 46,
            view_x: 0,
            view_y: -46i64,
            col_change_lock_x: false,
            col_change_lock_y: true,
        }
    }
}

impl App {
    /// The dirty region is well formed and lies within the data.
    pub open spec fn wf(&self) -> bool {
        &&& self.dirty_region.wf()
        &&& match self.dirty_region.region {
            Some(r) => match self.data.buffer() {
                Some(b) => r.end < b.len(),
                None => false,
            },
            None => true,
        }
    }

    /// The data is held in memory and the source, if any, may be written.
    pub open spec fn writable(&self) -> bool {
        &&& self.data.buffer() is Some
        &&& match self.source {
            Some(a) => a.permissions.write,
            None => true,
        }
    }

    /// Nothing but the data and the dirty region differ.
    pub open spec fn same_but_data(&self, other: &App) -> bool {
        &&& self.source == other.source
        &&& self.cursor == other.cursor
        &&& self.preferences == other.preferences
        &&& self.hard_seek == other.hard_seek
        &&& self.grid == other.grid
    }

    /// A session over bytes in memory, with nothing changed.
    /// A session over bytes in memory, with nothing changed. With a jump
    /// offset, the cursor starts there and the grid is centred on it.
    pub fn new(
        data: Vec<u8>,
        source: Option<SourceAttributes>,
        preferences: Preferences,
        hard_seek: Option<u64>,
        jump: Option<usize>,
    ) -> (r: App)
        ensures
            r.wf(),
            r.data.buffer() == Some(data@),
            r.source == source,
            r.dirty_region.region is None,
            r.cursor == jump.unwrap_or(0),
            r.preferences == preferences,
            r.hard_seek == hard_seek,
            r.grid == match jump {
                Some(o) => GridLayout::initial().centered_on(o as int),
                None => GridLayout::initial(),
            },
    {
        let mut this = App {
            data: SourceAccessEnum::SingleBuffer(SingleBufferAccessor::from_vec(data)),
            source,
            dirty_region: DamageTracker::new(),
            cursor: 0,
            preferences,
            hard_seek,
            grid: GridLayout {
                view: View { start_offset: 0, rows: 67, cols: 48 },
                col_width: 26,
                row_height: 16,
                top_gap: 46,
                view_x: 0,
                view_y: -46,
                col_change_lock_x: false,
                col_change_lock_y: true,
            },
        };
        if let Some(offset) = jump {
            assert((offset % 48) * 26 <= 47 * 26) by (nonlinear_arith)
                requires
                    0 <= offset % 48 < 48,
            ;
            assert((offset / 48) * 16 <= i64::MAX) by (nonlinear_arith)
                requires
                    0 <= offset <= usize::MAX,
                    usize::MAX <= 0xffff_ffff_ffff_ffffnat,
            ;
            this.search_focus(offset);
        }
        this
    }

    pub fn writable_exec(&self) -> (r: bool)
        ensures
            r == self.writable(),
    {
        let open_for_write = match self.source {
            Some(a) => a.permissions.write,
            None => true,
        };
        match &self.data {
            SourceAccessEnum::SingleBuffer(_) => open_for_write,
            SourceAccessEnum::Memmap(_) => false,
        }
    }

    /// Records a change from `begin` to `end`, or of the byte at `begin`.
    pub fn widen_dirty_region(&mut self, begin: usize, end: Option<usize>)
        requires
            old(self).wf(),
            widen_ok(old(self).dirty_region.region, begin as int, end),
            old(self).data.buffer() is Some,
            begin < old(self).data.buffer().unwrap().len(),
            end is Some ==> end.unwrap() < old(self).data.buffer().unwrap().len(),
        ensures
            final(self).wf(),
            final(self).dirty_region.region == widened(old(self).dirty_region.region, begin, end),
            final(self).data == old(self).data,
            final(self).same_but_data(old(self)),
    {
        self.dirty_region.widen(begin, end);
    }

    /// Writes one byte and records it as changed. Fails, changing nothing,
    /// where the source may not be written or the offset is past the end.
    pub fn write_byte(&mut self, idx: usize, value: u8) -> (r: Result<(), CommitError>)
        requires
            old(self).wf(),
        ensures
            final(self).wf(),
            final(self).same_but_data(old(self)),
            write_outcome(*old(self), *final(self), idx, value, r),
    {
        if !self.writable_exec() {
            return Err(CommitError::ReadOnly);
        }
        match &mut self.data {
            SourceAccessEnum::SingleBuffer(a) => {
                if idx < a.source_len() {
                    a.set_byte(idx, value);
                    self.dirty_region.widen(idx, None);
                    Ok(())
                } else {
                    Err(CommitError::OutOfBounds)
                }
            },
            SourceAccessEnum::Memmap(_) => Err(CommitError::ReadOnly),
        }
    }

    /// Writes `bytes` from offset `start` on and records them as changed.
    /// Fails, changing nothing, where the source may not be written or the
    /// bytes would reach past the end.
    pub fn write_range(&mut self, start: usize, bytes: &[u8]) -> (r: Result<(), CommitError>)
        requires
            old(self).wf(),
        ensures
            final(self).wf(),
            final(self).same_but_data(old(self)),
            !old(self).writable() ==> r == Err::<(), CommitError>(CommitError::ReadOnly),
            old(self).writable() ==> {
                let b = old(self).data.buffer().unwrap();
                let fits = start + bytes@.len() <= b.len();
                &&& !fits ==> r == Err::<(), CommitError>(CommitError::OutOfBounds)
                &&& fits ==> r is Ok
                &&& fits ==> final(self).data.buffer() == Some(
                    b.subrange(0, start as int) + bytes@ + b.subrange(
                        start + bytes@.len(),
                        b.len() as int,
                    ),
                )
                &&& fits && bytes@.len() > 0 ==> final(self).dirty_region.region == widened(
                    old(self).dirty_region.region,
                    start,
                    Some((start + bytes@.len() - 1) as usize),
                )
                &&& fits && bytes@.len() == 0 ==> final(self).dirty_region == old(
                    self,
                ).dirty_region
            },
            r is Err ==> final(self).data == old(self).data && final(self).dirty_region == old(
                self,
            ).dirty_region,
    {
        if !self.writable_exec() {
            return Err(CommitError::ReadOnly);
        }
        let n = bytes.len();
        match &mut self.data {
            SourceAccessEnum::SingleBuffer(a) => {
                let len = a.source_len();
                if start > len || n > len - start {
                    return Err(CommitError::OutOfBounds);
                }
                if n == 0 {
                    assert(a@ =~= a@.subrange(0, start as int) + bytes@ + a@.subrange(
                        start as int,
                        a@.len() as int,
                    ));
                    return Ok(());
                }
                let ghost before = a@;
                let mut i: usize = 0;
                while i < n
                    invariant
                        n == bytes@.len(),
                        start + n <= len,
                        len == before.len(),
                        a@.len() == len,
                        0 <= i <= n,
                        forall|j: int| 0 <= j < start ==> a@[j] == before[j],
                        forall|j: int| 0 <= j < i ==> a@[start + j] == bytes@[j],
                        forall|j: int| start + i <= j < len ==> a@[j] == before[j],
                    decreases n - i,
                {
                    a.set_byte(start + i, bytes[i]);
                    i = i + 1;
                }
                assert(a@ =~= before.subrange(0, start as int) + bytes@ + before.subrange(
                    start + n,
                    len as int,
                ));
                self.dirty_region.widen(start, Some(start + n - 1));
                Ok(())
            },
            SourceAccessEnum::Memmap(_) => Err(CommitError::ReadOnly),
        }
    }

    /// What a save would write: the dirty region, or all the data when
    /// nothing is recorded as changed. Fails where no file is open or it may
    /// not be written.
    pub fn save_plan(&self) -> (r: Result<SavePlan, SaveError>)
        requires
            self.wf(),
        ensures
            self.source is None ==> r == Err::<SavePlan, SaveError>(SaveError::NoFile),
            self.source is Some && !self.writable() ==> r == Err::<SavePlan, SaveError>(
                SaveError::ReadOnly,
            ),
            self.source is Some && self.writable() ==> r == Ok::<SavePlan, SaveError>(
                SavePlan {
                    seek: match self.hard_seek {
                        Some(s) => s,
                        None => 0,
                    },
                    begin: match self.dirty_region.region {
                        Some(d) => d.begin,
                        None => 0,
                    },
                    end: match self.dirty_region.region {
                        Some(d) => (d.end + 1) as usize,
                        None => self.data.buffer().unwrap().len() as usize,
                    },
                },
            ),
            r matches Ok(p) ==> p.begin <= p.end <= self.data.buffer().unwrap().len(),
    {
        if self.source.is_none() {
            return Err(SaveError::NoFile);
        }
        if !self.writable_exec() {
            return Err(SaveError::ReadOnly);
        }
        let seek = match self.hard_seek {
            Some(s) => s,
            None => 0,
        };
        let len = self.data.source_len();
        match self.dirty_region.region() {
            Some(d) => Ok(SavePlan { seek, begin: d.begin, end: d.end + 1 }),
            None => Ok(SavePlan { seek, begin: 0, end: len }),
        }
    }

    /// Forgets the changes, once a save has written them.
    pub fn mark_saved(&mut self)
        requires
            old(self).wf(),
        ensures
            final(self).wf(),
            final(self).dirty_region.region is None,
            final(self).data == old(self).data,
            final(self).same_but_data(old(self)),
    {
        self.dirty_region.clear();
    }

    /// Replaces the data with what was read again from the source; nothing
    /// is changed any more.
    pub fn reload(&mut self, contents: Vec<u8>)
        ensures
            final(self).wf(),
            final(self).data.buffer() == Some(contents@),
            final(self).dirty_region.region is None,
            final(self).same_but_data(old(self)),
    {
        self.data = SourceAccessEnum::SingleBuffer(SingleBufferAccessor::from_vec(contents));
        self.dirty_region.clear();
    }

    /// Closes the source: the data is freed and nothing is open.
    pub fn close_file(&mut self)
        ensures
            final(self).wf(),
            final(self).data.buffer() == Some(Seq::<u8>::empty()),
            final(self).source is None,
            final(self).dirty_region.region is None,
            final(self).cursor == old(self).cursor,
            final(self).preferences == old(self).preferences,
            final(self).hard_seek == old(self).hard_seek,
            final(self).grid == old(self).grid,
    {
        self.data.make_empty_and_free();
        self.source = None;
        self.dirty_region.clear();
    }

    /// Every offset where `needle` occurs in the data.
    pub fn find_all(&self, needle: &[u8]) -> (r: Vec<usize>)
        ensures
            self.data.buffer() matches Some(b) ==> crate::search::lists_all_matches(b, needle@, r@),
    {
        self.data.find_iter(needle)
    }
}

/// The outcome of writing `value` at `idx`: refused where the source may
/// not be written or the offset is past the end, and then nothing changes;
/// else the byte is written and recorded as changed.
pub open spec fn write_outcome(
    before: App,
    after: App,
    idx: usize,
    value: u8,
    r: Result<(), CommitError>,
) -> bool {
    if !before.writable() {
        &&& r == Err::<(), CommitError>(CommitError::ReadOnly)
        &&& after.data == before.data
        &&& after.dirty_region == before.dirty_region
    } else if idx >= before.data.buffer().unwrap().len() {
        &&& r == Err::<(), CommitError>(CommitError::OutOfBounds)
        &&& after.data == before.data
        &&& after.dirty_region == before.dirty_region
    } else {
        &&& r is Ok
        &&& after.data.buffer() == Some(before.data.buffer().unwrap().update(idx as int, value))
        &&& after.dirty_region.region == widened(before.dirty_region.region, idx, None)
    }
}

/// The whole row and column of a pixel offset in the grid: the offset
/// divided by the cell size, or 0 before the grid.
pub open spec fn cells_of(pixels: int, cell: int) -> int {
    if pixels < 0 {
        0
    } else {
        pixels / cell
    }
}

impl App {
    /// Calculate the (row, col, byte) offset where the view starts showing from
    pub fn view_offsets(&self) -> (r: ViewOffsets)
        requires
            self.grid.offsets_fit(),
        ensures
            (r.row as int, r.col as int, r.byte as int) == self.grid.offsets(),
    {
        let view_y = self.grid.view_y + self.grid.top_gap;
        let row_offset: usize = if view_y < 0 {
            0
        } else {
            (view_y / self.grid.row_height as i64) as usize
        };
        let col_offset: usize = if self.grid.view_x < 0 {
            0
        } else {
            (self.grid.view_x / self.grid.col_width as i64) as usize
        };
        proof {
            if view_y >= 0 {
                vstd::arithmetic::div_mod::lemma_div_is_ordered_by_denominator(view_y as int, 1, self.grid.row_height as int);
                vstd::arithmetic::div_mod::lemma_div_pos_is_pos(view_y as int, self.grid.row_height as int);
            }
            if self.grid.view_x >= 0 {
                vstd::arithmetic::div_mod::lemma_div_is_ordered_by_denominator(self.grid.view_x as int, 1, self.grid.col_width as int);
                vstd::arithmetic::div_mod::lemma_div_pos_is_pos(self.grid.view_x as int, self.grid.col_width as int);
            }
            assert(0 <= row_offset * self.grid.view.cols) by (nonlinear_arith);
        }
        ViewOffsets {
            row: row_offset,
            col: col_offset,
            byte: row_offset * self.grid.view.cols + col_offset,
        }
    }

    /// Scrolls the grid to the row and column of a byte offset, on the axes
    /// that are locked.
    pub fn set_view_to_byte_offset(&mut self, offset: usize)
        requires
            old(self).grid.set_fits(offset as int),
        ensures
            final(self).grid == old(self).grid.set_to(offset as int),
            final(self).data == old(self).data,
            final(self).dirty_region == old(self).dirty_region,
            final(self).cursor == old(self).cursor,
            final(self).source == old(self).source,
    {
        let (row, col) = self.grid.view.offset_row_col(offset);
        if self.grid.col_change_lock_x {
            self.grid.view_x = ((col as u128) * (self.grid.col_width as u128)) as i64;
        }
        if self.grid.col_change_lock_y {
            self.grid.view_y = (((row as u128) * (self.grid.row_height as u128)) as i64) - self.grid.top_gap;
        }
    }

    /// Keeps the grid from scrolling more than 100 pixels before the data.
    pub fn clamp_view(&mut self)
        ensures
            final(self).grid.view_x == if old(self).grid.view_x < -100 {
                -100i64
            } else {
                old(self).grid.view_x
            },
            final(self).grid.view_y == if old(self).grid.view_y < -100 {
                -100i64
            } else {
                old(self).grid.view_y
            },
            final(self).grid == (GridLayout {
                view_x: final(self).grid.view_x,
                view_y: final(self).grid.view_y,
                ..old(self).grid
            }),
            final(self).data == old(self).data,
            final(self).dirty_region == old(self).dirty_region,
            final(self).cursor == old(self).cursor,
            final(self).source == old(self).source,
    {
        if self.grid.view_x < -100 {
            self.grid.view_x = -100;
        }
        if self.grid.view_y < -100 {
            self.grid.view_y = -100;
        }
    }

    /// Scrolls the grid so that a byte offset stands 200 pixels in from the
    /// top left corner.
    pub fn center_view_on_offset(&mut self, offset: usize)
        requires
            old(self).grid.view.cols >= 1,
            (offset % old(self).grid.view.cols) * old(self).grid.col_width <= i64::MAX,
            (offset / old(self).grid.view.cols) * old(self).grid.row_height <= i64::MAX,
        ensures
            final(self).grid == old(self).grid.centered_on(offset as int),
            final(self).data == old(self).data,
            final(self).dirty_region == old(self).dirty_region,
            final(self).cursor == old(self).cursor,
            final(self).source == old(self).source,
            final(self).preferences == old(self).preferences,
            final(self).hard_seek == old(self).hard_seek,
    {
        let (row, col) = self.grid.view.offset_row_col(offset);
        self.grid.view_x = ((col as u128) * (self.grid.col_width as u128)) as i64 - 200;
        self.grid.view_y = ((row as u128) * (self.grid.row_height as u128)) as i64 - 200;
    }

    /// Puts the cursor on a found offset and centers the grid on it.
    pub fn search_focus(&mut self, offset: usize)
        requires
            old(self).grid.view.cols >= 1,
            (offset % old(self).grid.view.cols) * old(self).grid.col_width <= i64::MAX,
            (offset / old(self).grid.view.cols) * old(self).grid.row_height <= i64::MAX,
        ensures
            final(self).cursor == offset,
            final(self).grid == old(self).grid.centered_on(offset as int),
            final(self).data == old(self).data,
            final(self).dirty_region == old(self).dirty_region,
            final(self).source == old(self).source,
            final(self).preferences == old(self).preferences,
            final(self).hard_seek == old(self).hard_seek,
    {
        self.cursor = offset;
        self.center_view_on_offset(offset);
    }

    /// Where the text columns start: after the hex columns and a gap.
    pub fn ascii_display_x_offset(&self) -> (r: i64)
        requires
            self.grid.view.cols * self.grid.col_width + 12 <= i64::MAX,
        ensures
            r == self.grid.view.cols * self.grid.col_width + 12,
    {
        proof {
            assert(0 <= self.grid.view.cols * self.grid.col_width) by (nonlinear_arith);
        }
        ((self.grid.view.cols as u128) * (self.grid.col_width as u128)) as i64 + 12
    }

    /// Where the block columns start.
    pub fn block_display_x_offset(&self) -> (r: i64)
        requires
            (self.grid.view.cols * self.grid.col_width + 12) * 2 <= i64::MAX,
        ensures
            r == (self.grid.view.cols * self.grid.col_width + 12) * 2,
    {
        self.ascii_display_x_offset() * 2
    }
}

/// Scrolling the grid to a byte offset on both axes and reading back where
/// it starts gives that offset, with its row and column.
pub proof fn lemma_grid_round_trip(g: GridLayout, offset: int)
    requires
        0 <= offset,
        g.col_change_lock_x,
        g.col_change_lock_y,
        g.row_height >= 1,
        g.col_width >= 1,
        g.set_fits(offset),
    ensures
        g.set_to(offset).offsets() == (
            offset / g.view.cols as int,
            offset % g.view.cols as int,
            offset,
        ),
{
    let cols = g.view.cols as int;
    let row = offset / cols;
    let col = offset % cols;
    vstd::arithmetic::div_mod::lemma_fundamental_div_mod(offset, cols);
    vstd::arithmetic::div_mod::lemma_div_pos_is_pos(offset, cols);
    vstd::arithmetic::div_mod::lemma_mod_pos_bound(offset, cols);
    vstd::arithmetic::div_mod::lemma_div_by_multiple(row, g.row_height as int);
    vstd::arithmetic::div_mod::lemma_div_by_multiple(col, g.col_width as int);
    assert(row * g.row_height >= 0) by (nonlinear_arith)
        requires
            row >= 0,
            g.row_height >= 1,
    ;
    assert(col * g.col_width >= 0) by (nonlinear_arith)
        requires
            col >= 0,
            g.col_width >= 1,
    ;
    assert(row * cols == cols * row) by (nonlinear_arith);
    let h = g.set_to(offset);
    assert(h.view_y + h.top_gap == row * g.row_height);
    assert(h.view_x == col * g.col_width);
}

impl App {
    /// The column count that keeps the byte at the grid's start in view:
    /// the grid is then scrolled back to that byte on the locked axes.
    pub open spec fn recolumned(self, cols: int) -> GridLayout {
        self.grid.with_cols(cols).set_to(self.grid.offsets().2)
    }

    /// Changing the column count to `cols` can be computed.
    pub open spec fn recolumn_fits(self, cols: int) -> bool {
        &&& 1 <= cols <= usize::MAX
        &&& self.grid.offsets_fit()
        &&& self.grid.with_cols(cols).set_fits(self.grid.offsets().2)
    }

    fn change_cols(&mut self, cols: usize)
        requires
            old(self).recolumn_fits(cols as int),
        ensures
            final(self).grid == old(self).recolumned(cols as int),
            final(self).data == old(self).data,
            final(self).dirty_region == old(self).dirty_region,
            final(self).cursor == old(self).cursor,
            final(self).source == old(self).source,
    {
        let prev_offset = self.view_offsets();
        self.grid.view.cols = cols;
        self.set_view_to_byte_offset(prev_offset.byte);
    }

    /// One column less, keeping the start byte in view.
    pub fn dec_cols(&mut self)
        requires
            old(self).recolumn_fits(old(self).grid.view.cols - 1),
        ensures
            final(self).grid == old(self).recolumned(old(self).grid.view.cols - 1),
            final(self).data == old(self).data,
            final(self).cursor == old(self).cursor,
    {
        let cols = self.grid.view.cols - 1;
        self.change_cols(cols);
    }

    /// One column more, keeping the start byte in view.
    pub fn inc_cols(&mut self)
        requires
            old(self).recolumn_fits(old(self).grid.view.cols + 1),
        ensures
            final(self).grid == old(self).recolumned(old(self).grid.view.cols + 1),
            final(self).data == old(self).data,
            final(self).cursor == old(self).cursor,
    {
        let cols = self.grid.view.cols + 1;
        self.change_cols(cols);
    }

    /// Half the columns, keeping the start byte in view.
    pub fn halve_cols(&mut self)
        requires
            old(self).recolumn_fits(old(self).grid.view.cols as int / 2),
        ensures
            final(self).grid == old(self).recolumned(old(self).grid.view.cols as int / 2),
            final(self).data == old(self).data,
            final(self).cursor == old(self).cursor,
    {
        let cols = self.grid.view.cols / 2;
        self.change_cols(cols);
    }

    /// Twice the columns, keeping the start byte in view.
    pub fn double_cols(&mut self)
        requires
            old(self).recolumn_fits(old(self).grid.view.cols * 2),
        ensures
            final(self).grid == old(self).recolumned(old(self).grid.view.cols * 2),
            final(self).data == old(self).data,
            final(self).cursor == old(self).cursor,
    {
        let cols = self.grid.view.cols * 2;
        self.change_cols(cols);
    }
}

/// A view into the data as a plain grid of bytes
#[derive(Clone, Copy, Debug, PartialEq, Eq, Structural)]
pub struct View {
    /// The starting offset where the view starts from
    pub start_offset: usize,
    /// How many rows the view displays (how tall it is)
    pub rows: usize,
    /// How many columns the view displays (how wide it is)
    pub cols: usize,
}

/// A (row, column, byte) position in a plain grid.
#[derive(Clone, Copy, Debug, PartialEq, Eq, Structural)]
pub struct ViewOffsets {
    pub row: usize,
    pub col: usize,
    pub byte: usize,
}

impl View {
    /// The row and column of a byte offset in this grid.
    pub fn offset_row_col(&self, offset: usize) -> (r: (usize, usize))
        requires
            self.cols >= 1,
        ensures
            r.0 == offset / self.cols,
            r.1 == offset % self.cols,
            r.0 * self.cols + r.1 == offset,
    {
        proof {
            vstd::arithmetic::div_mod::lemma_fundamental_div_mod(offset as int, self.cols as int);
            assert((offset / self.cols) * self.cols == self.cols * (offset / self.cols)) by (nonlinear_arith);
        }
        (offset / self.cols, offset % self.cols)
    }
}

} // verus!
