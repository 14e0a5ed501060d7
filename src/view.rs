use vstd::prelude::*;
use vstd::view::View as _;

use crate::edit_buffer::EditBuffer;
use crate::perspective::Perspective;
use crate::scroll::{scroll_fits, scroll_impl, scroll_result, COMFY_MARGIN};

verus! {

/// Type for viewport magnitudes: positions and sizes on screen, in pixels.
pub type ViewportScalar = i16;

/// A rectangle of the viewport, in pixels.
#[derive(Clone, Copy, Debug, PartialEq, Eq, Structural)]
pub struct ViewportRect {
    pub x: ViewportScalar,
    pub y: ViewportScalar,
    pub w: ViewportScalar,
    pub h: ViewportScalar,
}

/// A position in the viewport, in pixels.
#[derive(Clone, Copy, Debug, PartialEq, Eq, Structural)]
pub struct ViewportVec {
    pub x: ViewportScalar,
    pub y: ViewportScalar,
}

impl ViewportVec {
    /// The position with both coordinates, if both fit a viewport scalar.
    pub fn try_from_pair(x: i32, y: i32) -> (r: Option<ViewportVec>)
        ensures
            r is Some == (i16::MIN <= x <= i16::MAX && i16::MIN <= y <= i16::MAX),
            r is Some ==> r.unwrap().x == x && r.unwrap().y == y,
    {
        if i16::MIN as i32 <= x && x <= i16::MAX as i32 && i16::MIN as i32 <= y && y
            <= i16::MAX as i32 {
            Some(ViewportVec { x: x as i16, y: y as i16 })
        } else {
            None
        }
    }
}

impl ViewportRect {
    pub open spec fn contains_spec(self, x: int, y: int) -> bool {
        self.x <= x <= self.x + self.w && self.y <= y <= self.y + self.h
    }

    /// Whether the position lies in the rectangle, its right and bottom
    /// edges included.
    pub fn contains_pos(&self, x: ViewportScalar, y: ViewportScalar) -> (r: bool)
        ensures
            r == self.contains_spec(x as int, y as int),
    {
        let x = x as i32;
        let y = y as i32;
        x >= self.x as i32 && y >= self.y as i32 && x <= self.x as i32 + self.w as i32 && y
            <= self.y as i32 + self.h as i32
    }

    /// The position relative to the rectangle's corner, if it lies in the
    /// rectangle.
    pub fn relative_offset_of_pos(&self, x: ViewportScalar, y: ViewportScalar) -> (r: Option<
        (ViewportScalar, ViewportScalar),
    >)
        ensures
            r.is_some() == self.contains_spec(x as int, y as int),
            r.is_some() ==> r.unwrap().0 == x - self.x && r.unwrap().1 == y - self.y,
    {
        if self.contains_pos(x, y) {
            Some((x - self.x, y - self.y))
        } else {
            None
        }
    }
}

/// How far a view has scrolled: whole rows and columns, and a pixel
/// remainder on each axis.
#[derive(Clone, Copy, Debug, PartialEq, Eq, Structural)]
pub struct ScrollOffset {
    /// What column we are at
    pub col: usize,
    /// Additional pixel x offset
    pub pix_xoff: i16,
    /// What row we are at
    pub row: usize,
    /// Additional pixel y offset
    pub pix_yoff: i16,
}

impl Default for ScrollOffset {
    fn default() -> (r: ScrollOffset)
        ensures
            r == (ScrollOffset { col: 0, pix_xoff: 0, row: 0, pix_yoff: 0 }),
    {
        ScrollOffset { col: 0, pix_xoff: 0, row: 0, pix_yoff: 0 }
    }
}

impl ScrollOffset {
    pub fn col(&self) -> (r: usize)
        ensures
            r == self.col,
    {
        self.col
    }

    pub fn row(&self) -> (r: usize)
        ensures
            r == self.row,
    {
        self.row
    }

    pub fn pix_xoff(&self) -> (r: i16)
        ensures
            r == self.pix_xoff,
    {
        self.pix_xoff
    }

    pub fn pix_yoff(&self) -> (r: i16)
        ensures
            r == self.pix_yoff,
    {
        self.pix_yoff
    }

    /// Discards the pixel remainders.
    pub fn floor(&mut self)
        ensures
            *final(self) == (ScrollOffset { pix_xoff: 0, pix_yoff: 0, ..*old(self) }),
    {
        self.pix_xoff = 0;
        self.pix_yoff = 0;
    }

    /// The offset after a horizontal scroll by `by` pixels over cells `cell`
    /// pixels wide.
    pub open spec fn scrolled_x(self, cell: int, by: int) -> ScrollOffset {
        let r = scroll_result(self.col as int, self.pix_xoff as int, cell, by);
        ScrollOffset { col: r.0 as usize, pix_xoff: r.1 as i16, ..self }
    }

    /// The offset after a vertical scroll by `by` pixels over cells `cell`
    /// pixels high.
    pub open spec fn scrolled_y(self, cell: int, by: int) -> ScrollOffset {
        let r = scroll_result(self.row as int, self.pix_yoff as int, cell, by);
        ScrollOffset { row: r.0 as usize, pix_yoff: r.1 as i16, ..self }
    }
}

/// The kind of text a text view shows.
#[derive(Clone, Copy, Debug, PartialEq, Eq, Structural)]
pub enum TextKind {
    Ascii,
    Utf16Le,
    Utf16Be,
}

impl TextKind {
    pub fn name(&self) -> (r: &'static str)
        ensures
            r@ == match self {
                TextKind::Ascii => "ascii"@,
                TextKind::Utf16Le => "utf-16 le"@,
                TextKind::Utf16Be => "utf-16 be"@,
            },
    {
        match self {
            TextKind::Ascii => "ascii",
            TextKind::Utf16Le => "utf-16 le",
            TextKind::Utf16Be => "utf-16 be",
        }
    }

    /// How many bytes one character of this kind takes.
    pub fn bytes_needed(&self) -> (r: u8)
        ensures
            r == match self {
                TextKind::Ascii => 1u8,
                _ => 2u8,
            },
    {
        match self {
            TextKind::Ascii => 1,
            TextKind::Utf16Le => 2,
            TextKind::Utf16Be => 2,
        }
    }
}

/// State of a hex or decimal view.
#[derive(Clone, Debug)]
pub struct HexData {
    pub edit_buf: EditBuffer,
    pub font_size: u16,
}

impl Default for HexData {
    fn default() -> (r: HexData)
        ensures
            r.font_size == 14,
            r.edit_buf.buf@.len() == 0,
            r.edit_buf.cursor == 0,
            !r.edit_buf.dirty,
    {
        HexData { edit_buf: EditBuffer::new(), font_size: 14 }
    }
}

/// State of a text view.
#[derive(Clone, Debug)]
pub struct TextData {
    /// The kind of text (ascii/utf16/etc)
    pub text_kind: TextKind,
    pub line_spacing: u16,
    pub edit_buf: EditBuffer,
    pub font_size: u16,
}

impl TextData {
    /// An ascii text view with the given font size and line spacing.
    pub fn new(font_size: u16, line_spacing: u16) -> (r: TextData)
        ensures
            r.text_kind == TextKind::Ascii,
            r.font_size == font_size,
            r.line_spacing == line_spacing,
            r.edit_buf.buf@.len() == 0,
            r.edit_buf.cursor == 0,
            !r.edit_buf.dirty,
    {
        TextData { text_kind: TextKind::Ascii, line_spacing, edit_buf: EditBuffer::new(), font_size }
    }
}

/// The kind of view (hex, decimal, text, block)
#[derive(Clone, Debug)]
pub enum ViewKind {
    Hex(HexData),
    Dec(HexData),
    Text(TextData),
    Block,
}

/// The column width and row height that a kind of view gives its cells.
pub open spec fn block_size_of(kind: ViewKind) -> (int, int) {
    match kind {
        ViewKind::Hex(d) => (d.font_size * 2 - 2, d.font_size as int),
        ViewKind::Dec(d) => (d.font_size * 3 - 6, d.font_size as int),
        ViewKind::Text(d) => (
            d.font_size as int,
            if d.line_spacing >= 1 {
                d.line_spacing as int
            } else {
                1
            },
        ),
        ViewKind::Block => (4, 4),
    }
}

/// The font size of a kind fits the cell size computation in 16 bits.
pub open spec fn block_size_fits(kind: ViewKind) -> bool {
    match kind {
        ViewKind::Hex(d) => 1 <= d.font_size <= 32767,
        ViewKind::Dec(d) => 2 <= d.font_size <= 21845,
        _ => true,
    }
}

/// How many glyphs one cell of a kind shows.
pub open spec fn glyph_count_of(kind: ViewKind) -> int {
    match kind {
        ViewKind::Hex(_) => 2,
        ViewKind::Dec(_) => 3,
        _ => 1,
    }
}

/// The edit buffer of a kind, if it has one.
pub open spec fn edit_buf_of(kind: ViewKind) -> Option<EditBuffer> {
    match kind {
        ViewKind::Hex(d) => Some(d.edit_buf),
        ViewKind::Dec(d) => Some(d.edit_buf),
        ViewKind::Text(d) => Some(d.edit_buf),
        ViewKind::Block => None,
    }
}

/// The kind with its edit buffer replaced, where it has one.
pub open spec fn with_edit_buf(kind: ViewKind, eb: EditBuffer) -> ViewKind {
    match kind {
        ViewKind::Hex(d) => ViewKind::Hex(HexData { edit_buf: eb, ..d }),
        ViewKind::Dec(d) => ViewKind::Dec(HexData { edit_buf: eb, ..d }),
        ViewKind::Text(d) => ViewKind::Text(TextData { edit_buf: eb, ..d }),
        ViewKind::Block => ViewKind::Block,
    }
}

/// Both kinds are the same variant with the same settings; only their edit
/// buffers may differ.
pub open spec fn same_kind_settings(a: ViewKind, b: ViewKind) -> bool {
    match (a, b) {
        (ViewKind::Hex(x), ViewKind::Hex(y)) => x.font_size == y.font_size,
        (ViewKind::Dec(x), ViewKind::Dec(y)) => x.font_size == y.font_size,
        (ViewKind::Text(x), ViewKind::Text(y)) => {
            &&& x.text_kind == y.text_kind
            &&& x.line_spacing == y.line_spacing
            &&& x.font_size == y.font_size
        },
        (ViewKind::Block, ViewKind::Block) => true,
        _ => false,
    }
}

/// `nb` is `ob` resized to `n` glyphs: the same dirty flag, and the same
/// cursor where it still points into the buffer.
pub open spec fn resized_from(nb: EditBuffer, ob: EditBuffer, n: int) -> bool {
    &&& nb.dirty == ob.dirty
    &&& nb.cursor == if (ob.cursor as int) < n {
        ob.cursor
    } else {
        0
    }
}

/// The edit buffer of `a` is that of `b` resized to the glyph count.
pub open spec fn buffer_resized(a: ViewKind, b: ViewKind) -> bool {
    match (edit_buf_of(a), edit_buf_of(b)) {
        (Some(nb), Some(ob)) => resized_from(nb, ob, glyph_count_of(b)),
        (None, None) => true,
        _ => false,
    }
}

/// The kind with its edit buffer reset, where it has one.
pub open spec fn kind_reset(kind: ViewKind) -> ViewKind {
    match edit_buf_of(kind) {
        Some(eb) => with_edit_buf(kind, EditBuffer { cursor: 0, dirty: false, ..eb }),
        None => kind,
    }
}

/// Whether a typed character is accepted by a kind of view: hex digits in
/// lower case, decimal digits, or any ascii character for text.
pub open spec fn char_valid_for(kind: ViewKind, c: char) -> bool {
    match kind {
        ViewKind::Hex(_) => ('0' <= c <= '9') || ('a' <= c <= 'f'),
        ViewKind::Dec(_) => '0' <= c <= '9',
        ViewKind::Text(_) => (c as u32) < 128,
        ViewKind::Block => false,
    }
}

/// Division that truncates toward zero, as Rust's integer division does.
pub open spec fn trunc_div(a: int, b: int) -> int {
    if a >= 0 {
        a / b
    } else {
        -((-a) / b)
    }
}

/// `off` pixels of a cell `src` pixels long, rescaled to a cell `own` pixels
/// long: truncated toward zero and held to 16 bits. A cell of no length on
/// the source side gives 0.
pub open spec fn rescaled(off: int, own: int, src: int) -> int {
    if src == 0 {
        0
    } else {
        let q = trunc_div(off * own, src);
        if q < i16::MIN {
            i16::MIN as int
        } else if q > i16::MAX {
            i16::MAX as int
        } else {
            q
        }
    }
}

fn rescale(off: i16, own: u16, src: u16) -> (r: i16)
    ensures
        r == rescaled(off as int, own as int, src as int),
{
    if src == 0 {
        return 0;
    }
    assert(-32768 * 65535 <= off * own <= 32767 * 65535) by (nonlinear_arith)
        requires
            -32768 <= off <= 32767,
            0 <= own <= 65535,
    ;
    let prod: i64 = off as i64 * own as i64;
    let q: i64 = if prod >= 0 {
        prod / (src as i64)
    } else {
        -((-prod) / (src as i64))
    };
    if q < i16::MIN as i64 {
        i16::MIN
    } else if q > i16::MAX as i64 {
        i16::MAX
    } else {
        q as i16
    }
}

/// A rectangular view in the viewport looking through a perspective at the
/// data with a flavor of rendering and interaction (hex, decimal, text,
/// block).
///
/// Several views can look through the same perspective. Each shows its own
/// amount of data, after the size of its cells and of its rectangle.
#[derive(Debug)]
pub struct View {
    /// The rectangle to occupy in the viewport
    pub viewport_rect: ViewportRect,
    /// The kind of view (hex, decimal, text, block)
    pub kind: ViewKind,
    /// Width of a column
    pub col_w: u16,
    /// Height of a row
    pub row_h: u16,
    /// The scrolling offset
    pub scroll_offset: ScrollOffset,
    /// The amount scrolled for a single scroll operation, in pixels
    pub scroll_speed: i16,
    /// How many bytes are required for a single block in the view
    pub bytes_per_block: u8,
    /// A view can be deactivated to not render or interact, but can later be reactivated
    pub active: bool,
}

/// The byte under the top left cell of a view, with its row and column.
#[derive(Clone, Copy, Debug, PartialEq, Eq, Structural)]
pub struct Offsets {
    pub row: usize,
    pub col: usize,
    pub byte: usize,
}

impl View {
    /// Everything but the scroll offset is the same in both.
    pub open spec fn same_but_scroll(self, other: View) -> bool {
        &&& self.viewport_rect == other.viewport_rect
        &&& self.kind == other.kind
        &&& self.col_w == other.col_w
        &&& self.row_h == other.row_h
        &&& self.scroll_speed == other.scroll_speed
        &&& self.bytes_per_block == other.bytes_per_block
        &&& self.active == other.active
    }

    /// The cell sizes are those of the kind, and the edit buffer, if any, has
    /// one entry per glyph of a cell.
    pub open spec fn kind_adjusted(self) -> bool {
        &&& (self.col_w as int, self.row_h as int) == block_size_of(self.kind)
        &&& match edit_buf_of(self.kind) {
            Some(eb) => eb.buf@.len() == glyph_count_of(self.kind) && eb.wf(),
            None => true,
        }
    }

    /// Number of whole rows that the view's rectangle holds.
    pub open spec fn rows_spec(self) -> int {
        trunc_div(self.viewport_rect.h as int, self.row_h as int)
    }

    /// The cell under a position relative to the view's rectangle, if it
    /// shows a byte of the perspective.
    pub open spec fn rel_hit(self, x: int, y: int, p: Perspective) -> Option<(int, int)> {
        let rel_x = x + self.scroll_offset.pix_xoff;
        let rel_y = y + self.scroll_offset.pix_yoff;
        if self.col_w == 0 || self.row_h == 0 || rel_x <= 0 || rel_y <= 0 {
            None
        } else {
            let rel_col = rel_x / self.col_w as int;
            let down = rel_y / self.row_h as int;
            let rel_row = if p.flip_row_order {
                self.rows_spec() - down
            } else {
                down
            };
            let abs_row = self.scroll_offset.row + rel_row;
            let abs_col = self.scroll_offset.col + rel_col;
            if rel_row < 0 || abs_row > usize::MAX || abs_col > usize::MAX || !p.within_bound(
                abs_row,
                abs_col,
            ) {
                None
            } else {
                Some((abs_row, abs_col))
            }
        }
    }

    /// The cell under a viewport position, if the position lies in the view
    /// and the cell shows a byte of the perspective.
    pub open spec fn hit(self, x: int, y: int, p: Perspective) -> Option<(int, int)> {
        if self.viewport_rect.contains_spec(x, y) {
            self.rel_hit(x - self.viewport_rect.x, y - self.viewport_rect.y, p)
        } else {
            None
        }
    }

    pub fn new(
        kind: ViewKind,
        x: ViewportScalar,
        y: ViewportScalar,
        w: ViewportScalar,
        h: ViewportScalar,
    ) -> (r: View)
        requires
            block_size_fits(kind),
        ensures
            r.viewport_rect == (ViewportRect { x, y, w, h }),
            r.scroll_offset == (ScrollOffset { col: 0, pix_xoff: 0, row: 0, pix_yoff: 0 }),
            r.scroll_speed == 0,
            r.bytes_per_block == 1,
            r.active,
            same_kind_settings(r.kind, kind),
            buffer_resized(r.kind, kind),
            r.kind_adjusted(),
    {
        let mut this = View {
            viewport_rect: ViewportRect { x, y, w, h },
            kind,
            col_w: 0,
            row_h: 0,
            scroll_offset: ScrollOffset::default(),
            scroll_speed: 0,
            bytes_per_block: 1,
            active: true,
        };
        this.adjust_state_to_kind();
        this
    }

    /// A view of no size, with a hex kind and nothing else set.
    pub fn zeroed() -> (r: View)
        ensures
            r.viewport_rect == (ViewportRect { x: 0, y: 0, w: 0, h: 0 }),
            r.col_w == 0,
            r.row_h == 0,
            r.scroll_offset == (ScrollOffset { col: 0, pix_xoff: 0, row: 0, pix_yoff: 0 }),
            r.scroll_speed == 0,
            r.bytes_per_block == 0,
            !r.active,
            r.kind matches ViewKind::Hex(d) && d.font_size == 14 && d.edit_buf.buf@.len() == 0
                && d.edit_buf.cursor == 0 && !d.edit_buf.dirty,
    {
        View {
            viewport_rect: ViewportRect { x: 0, y: 0, w: 0, h: 0 },
            kind: ViewKind::Hex(HexData::default()),
            col_w: 0,
            row_h: 0,
            scroll_offset: ScrollOffset::default(),
            scroll_speed: 0,
            bytes_per_block: 0,
            active: false,
        }
    }

    /// Scrolls horizontally by `amount` pixels.
    pub fn scroll_x(&mut self, amount: i16)
        requires
            old(self).col_w <= i16::MAX,
            scroll_fits(
                old(self).scroll_offset.col as int,
                old(self).scroll_offset.pix_xoff as int,
                old(self).col_w as int,
                amount as int,
            ),
        ensures
            final(self).scroll_offset == old(self).scroll_offset.scrolled_x(
                old(self).col_w as int,
                amount as int,
            ),
            final(self).same_but_scroll(*old(self)),
    {
        let cell = self.col_w as i16;
        scroll_impl(&mut self.scroll_offset.col, &mut self.scroll_offset.pix_xoff, cell, amount);
    }

    /// Scrolls vertically by `amount` pixels.
    pub fn scroll_y(&mut self, amount: i16)
        requires
            old(self).row_h <= i16::MAX,
            scroll_fits(
                old(self).scroll_offset.row as int,
                old(self).scroll_offset.pix_yoff as int,
                old(self).row_h as int,
                amount as int,
            ),
        ensures
            final(self).scroll_offset == old(self).scroll_offset.scrolled_y(
                old(self).row_h as int,
                amount as int,
            ),
            final(self).same_but_scroll(*old(self)),
    {
        let cell = self.row_h as i16;
        scroll_impl(&mut self.scroll_offset.row, &mut self.scroll_offset.pix_yoff, cell, amount);
    }
}

} // verus!

verus! {

/// An optional cell matches a spec cell.
pub open spec fn cell_matches(r: Option<(usize, usize)>, s: Option<(int, int)>) -> bool {
    match r {
        Some(v) => s == Some((v.0 as int, v.1 as int)),
        None => s is None,
    }
}

impl View {
    /// Sets the cell size after the kind of view.
    pub fn adjust_block_size(&mut self)
        requires
            block_size_fits(old(self).kind),
        ensures
            (final(self).col_w as int, final(self).row_h as int) == block_size_of(old(self).kind),
            final(self).kind == old(self).kind,
            final(self).viewport_rect == old(self).viewport_rect,
            final(self).scroll_offset == old(self).scroll_offset,
            final(self).scroll_speed == old(self).scroll_speed,
            final(self).bytes_per_block == old(self).bytes_per_block,
            final(self).active == old(self).active,
    {
        let (col_w, row_h) = match &self.kind {
            ViewKind::Hex(hex) => (hex.font_size * 2 - 2, hex.font_size),
            ViewKind::Dec(dec) => (dec.font_size * 3 - 6, dec.font_size),
            ViewKind::Text(data) => (
                data.font_size,
                if data.line_spacing >= 1 {
                    data.line_spacing
                } else {
                    1
                },
            ),
            ViewKind::Block => (4, 4),
        };
        self.col_w = col_w;
        self.row_h = row_h;
    }

    /// Adjusts the cell size and the edit buffer after the kind was changed.
    pub fn adjust_state_to_kind(&mut self)
        requires
            block_size_fits(old(self).kind),
        ensures
            final(self).kind_adjusted(),
            same_kind_settings(final(self).kind, old(self).kind),
            buffer_resized(final(self).kind, old(self).kind),
            final(self).viewport_rect == old(self).viewport_rect,
            final(self).scroll_offset == old(self).scroll_offset,
            final(self).scroll_speed == old(self).scroll_speed,
            final(self).bytes_per_block == old(self).bytes_per_block,
            final(self).active == old(self).active,
    {
        self.adjust_block_size();
        let glyph_count = self.glyph_count();
        match &mut self.kind {
            ViewKind::Hex(hex) => hex.edit_buf.resize(glyph_count),
            ViewKind::Dec(dec) => dec.edit_buf.resize(glyph_count),
            ViewKind::Text(text) => text.edit_buf.resize(glyph_count),
            ViewKind::Block => {},
        }
    }

    /// The number of glyphs per block this view has
    pub fn glyph_count(&self) -> (r: u16)
        ensures
            r == glyph_count_of(self.kind),
    {
        match self.kind {
            ViewKind::Hex(_) => 2,
            ViewKind::Dec(_) => 3,
            ViewKind::Text(_) => 1,
            ViewKind::Block => 1,
        }
    }

    /// Takes the whole row and column of another view, and its pixel
    /// remainders rescaled from its cell size to this view's.
    pub fn sync_to(
        &mut self,
        src_row: usize,
        src_yoff: i16,
        src_col: usize,
        src_xoff: i16,
        src_row_h: u16,
        src_col_w: u16,
    )
        ensures
            final(self).scroll_offset == (ScrollOffset {
                row: src_row,
                col: src_col,
                pix_yoff: rescaled(src_yoff as int, old(self).row_h as int, src_row_h as int) as i16,
                pix_xoff: rescaled(src_xoff as int, old(self).col_w as int, src_col_w as int) as i16,
            }),
            final(self).same_but_scroll(*old(self)),
    {
        self.scroll_offset.row = src_row;
        self.scroll_offset.col = src_col;
        self.scroll_offset.pix_yoff = rescale(src_yoff, self.row_h, src_row_h);
        self.scroll_offset.pix_xoff = rescale(src_xoff, self.col_w, src_col_w);
    }

    /// Scrolls down by the height of the view.
    pub fn scroll_page_down(&mut self)
        requires
            old(self).row_h <= i16::MAX,
            scroll_fits(
                old(self).scroll_offset.row as int,
                old(self).scroll_offset.pix_yoff as int,
                old(self).row_h as int,
                old(self).viewport_rect.h as int,
            ),
        ensures
            final(self).scroll_offset == old(self).scroll_offset.scrolled_y(
                old(self).row_h as int,
                old(self).viewport_rect.h as int,
            ),
            final(self).same_but_scroll(*old(self)),
    {
        self.scroll_y(self.viewport_rect.h);
    }

    /// Scrolls up by the height of the view.
    pub fn scroll_page_up(&mut self)
        requires
            old(self).row_h <= i16::MAX,
            old(self).viewport_rect.h > i16::MIN,
            scroll_fits(
                old(self).scroll_offset.row as int,
                old(self).scroll_offset.pix_yoff as int,
                old(self).row_h as int,
                -old(self).viewport_rect.h,
            ),
        ensures
            final(self).scroll_offset == old(self).scroll_offset.scrolled_y(
                old(self).row_h as int,
                -old(self).viewport_rect.h,
            ),
            final(self).same_but_scroll(*old(self)),
    {
        self.scroll_y(-self.viewport_rect.h);
    }

    /// Scrolls left by the width of the view.
    pub fn scroll_page_left(&mut self)
        requires
            old(self).col_w <= i16::MAX,
            old(self).viewport_rect.w > i16::MIN,
            scroll_fits(
                old(self).scroll_offset.col as int,
                old(self).scroll_offset.pix_xoff as int,
                old(self).col_w as int,
                -old(self).viewport_rect.w,
            ),
        ensures
            final(self).scroll_offset == old(self).scroll_offset.scrolled_x(
                old(self).col_w as int,
                -old(self).viewport_rect.w,
            ),
            final(self).same_but_scroll(*old(self)),
    {
        self.scroll_x(-self.viewport_rect.w);
    }

    /// Goes to the first row and column, with a margin before them.
    pub fn go_home(&mut self)
        ensures
            final(self).scroll_offset == (ScrollOffset {
                row: 0,
                col: 0,
                pix_xoff: COMFY_MARGIN,
                pix_yoff: COMFY_MARGIN,
            }),
            final(self).same_but_scroll(*old(self)),
    {
        self.scroll_offset.row = 0;
        self.scroll_offset.col = 0;
        self.scroll_offset.pix_xoff = COMFY_MARGIN;
        self.scroll_offset.pix_yoff = COMFY_MARGIN;
    }

    /// Scrolls so that the perspective's last row is the last one shown: a
    /// page back from just past the last byte's row and column, on whole
    /// cells, with a margin after them.
    pub fn scroll_to_end(&mut self, perspective: &Perspective)
        requires
            perspective.wf(),
            perspective.last_row() < usize::MAX,
            1 <= old(self).col_w <= i16::MAX,
            1 <= old(self).row_h <= i16::MAX,
            old(self).viewport_rect.w >= 0,
            old(self).viewport_rect.h >= 0,
        ensures
            final(self).scroll_offset == (ScrollOffset {
                row: scroll_result(
                    perspective.last_row() + 1,
                    0,
                    old(self).row_h as int,
                    -old(self).viewport_rect.h,
                ).0 as usize,
                col: scroll_result(
                    perspective.last_col() + 1,
                    0,
                    old(self).col_w as int,
                    -old(self).viewport_rect.w,
                ).0 as usize,
                pix_xoff: (-COMFY_MARGIN) as i16,
                pix_yoff: (-COMFY_MARGIN) as i16,
            }),
            final(self).same_but_scroll(*old(self)),
    {
        let last_row_idx = perspective.last_row_idx();
        let last_col_idx = perspective.last_col_idx();
        proof {
            vstd::arithmetic::div_mod::lemma_mod_pos_bound(perspective.span(), perspective.cols as int);
        }
        self.scroll_offset.row = last_row_idx + 1;
        self.scroll_offset.col = last_col_idx + 1;
        self.scroll_offset.floor();
        self.scroll_page_up();
        self.scroll_page_left();
        self.scroll_offset.pix_xoff = -COMFY_MARGIN;
        self.scroll_offset.pix_yoff = -COMFY_MARGIN;
    }

    /// The cell under a viewport position, if the position lies in the view
    /// and the cell shows a byte of the perspective.
    pub fn row_col_offset_of_pos(&self, x: i16, y: i16, perspective: &Perspective) -> (r: Option<
        (usize, usize),
    >)
        requires
            perspective.wf(),
        ensures
            cell_matches(r, self.hit(x as int, y as int, *perspective)),
    {
        match self.viewport_rect.relative_offset_of_pos(x, y) {
            Some((rx, ry)) => self.row_col_of_rel_pos(rx, ry, perspective),
            None => None,
        }
    }

    /// The cell under a position relative to the view's rectangle: the
    /// scroll remainder is added, the result divided into cells, the rows
    /// counted from the bottom of the view for a flipped perspective, and the
    /// whole scroll offset added. Positions at or before the view's top or
    /// left edge, and cells outside the perspective, give no cell.
    pub fn row_col_of_rel_pos(&self, x: i16, y: i16, perspective: &Perspective) -> (r: Option<
        (usize, usize),
    >)
        requires
            perspective.wf(),
        ensures
            cell_matches(r, self.rel_hit(x as int, y as int, *perspective)),
    {
        if self.col_w == 0 || self.row_h == 0 {
            return None;
        }
        let rel_x: i32 = x as i32 + self.scroll_offset.pix_xoff as i32;
        let rel_y: i32 = y as i32 + self.scroll_offset.pix_yoff as i32;
        if rel_x <= 0 || rel_y <= 0 {
            return None;
        }
        let rel_col: u32 = (rel_x as u32) / (self.col_w as u32);
        let down: u32 = (rel_y as u32) / (self.row_h as u32);
        proof {
            vstd::arithmetic::div_mod::lemma_div_is_ordered_by_denominator(
                rel_y as int,
                1,
                self.row_h as int,
            );
        }
        let rel_row: i32 = if perspective.flip_row_order {
            self.rows() as i32 - down as i32
        } else {
            down as i32
        };
        if rel_row < 0 {
            return None;
        }
        match self.scroll_offset.row.checked_add(rel_row as usize) {
            None => None,
            Some(abs_row) => match self.scroll_offset.col.checked_add(rel_col as usize) {
                None => None,
                Some(abs_col) => {
                    if perspective.row_col_within_bound(abs_row, abs_col) {
                        Some((abs_row, abs_col))
                    } else {
                        None
                    }
                },
            },
        }
    }

    /// Centers the view on the cell of a byte offset.
    pub fn center_on_offset(&mut self, offset: usize, perspective: &Perspective)
        requires
            perspective.wf(),
            1 <= old(self).col_w <= i16::MAX,
            1 <= old(self).row_h <= i16::MAX,
            old(self).viewport_rect.w >= 0,
            old(self).viewport_rect.h >= 0,
        ensures
            final(self).scroll_offset == old(self).centered_on(
                perspective.row_col_of(offset as int).0,
                perspective.row_col_of(offset as int).1,
            ),
            final(self).same_but_scroll(*old(self)),
    {
        let (row, col) = perspective.row_col_of_byte_offset(offset);
        self.center_on_row_col(row, col);
    }

    /// The scroll offset that puts a cell in the middle of the view: half a
    /// view back from it on each axis, starting on whole cells.
    pub open spec fn centered_on(self, row: int, col: int) -> ScrollOffset {
        let r = scroll_result(row, 0, self.row_h as int, -(self.viewport_rect.h / 2));
        let c = scroll_result(col, 0, self.col_w as int, -(self.viewport_rect.w / 2));
        ScrollOffset { row: r.0 as usize, pix_yoff: r.1 as i16, col: c.0 as usize, pix_xoff: c.1 as i16 }
    }

    /// Centers the view on a cell.
    pub fn center_on_row_col(&mut self, row: usize, col: usize)
        requires
            1 <= old(self).col_w <= i16::MAX,
            1 <= old(self).row_h <= i16::MAX,
            old(self).viewport_rect.w >= 0,
            old(self).viewport_rect.h >= 0,
        ensures
            final(self).scroll_offset == old(self).centered_on(row as int, col as int),
            final(self).same_but_scroll(*old(self)),
    {
        self.scroll_offset.row = row;
        self.scroll_offset.col = col;
        self.scroll_offset.floor();
        self.scroll_x(-(self.viewport_rect.w / 2));
        self.scroll_y(-(self.viewport_rect.h / 2));
    }

    /// The row, column and byte offset of the view's top left cell.
    pub fn offsets(&self, perspective: &Perspective) -> (r: Offsets)
        requires
            perspective.wf(),
        ensures
            r.row == self.scroll_offset.row,
            r.col == self.scroll_offset.col,
            r.byte == perspective.offset_of(self.scroll_offset.row as int, self.scroll_offset.col as int),
    {
        let row = self.scroll_offset.row;
        let col = self.scroll_offset.col;
        Offsets { row, col, byte: perspective.byte_offset_of_row_col(row, col) }
    }

    /// Scrolls to the cell of a byte offset on the chosen axes, on whole
    /// cells.
    pub fn scroll_to_byte_offset(
        &mut self,
        offset: usize,
        perspective: &Perspective,
        do_col: bool,
        do_row: bool,
    )
        requires
            perspective.wf(),
        ensures
            final(self).scroll_offset == (ScrollOffset {
                row: if do_row {
                    perspective.row_col_of(offset as int).0 as usize
                } else {
                    old(self).scroll_offset.row
                },
                col: if do_col {
                    perspective.row_col_of(offset as int).1 as usize
                } else {
                    old(self).scroll_offset.col
                },
                pix_xoff: 0,
                pix_yoff: 0,
            }),
            final(self).same_but_scroll(*old(self)),
    {
        let (row, col) = perspective.row_col_of_byte_offset(offset);
        if do_row {
            self.scroll_offset.row = row;
        }
        if do_col {
            self.scroll_offset.col = col;
        }
        self.scroll_offset.floor();
    }

    /// How many bytes the view's whole rows show.
    pub fn bytes_per_page(&self, perspective: &Perspective) -> (r: usize)
        requires
            self.row_h >= 1,
            self.viewport_rect.h >= 0,
            self.rows_spec() * perspective.cols <= usize::MAX,
        ensures
            r == self.rows_spec() * perspective.cols,
    {
        let rows = self.rows();
        rows as usize * perspective.cols
    }

    /// Returns the number of rows this view can display
    pub fn rows(&self) -> (r: i16)
        requires
            self.row_h >= 1,
        ensures
            r == self.rows_spec(),
    {
        let h = self.viewport_rect.h as i32;
        let cell = self.row_h as i32;
        proof {
            vstd::arithmetic::div_mod::lemma_div_is_ordered_by_denominator(
                if h >= 0 { h as int } else { -h },
                1,
                cell as int,
            );
            vstd::arithmetic::div_mod::lemma_div_pos_is_pos(if h >= 0 { h as int } else { -h }, cell as int);
        }
        if h >= 0 {
            (h / cell) as i16
        } else {
            (-((-h) / cell)) as i16
        }
    }

    /// Whether a typed character is accepted by this kind of view.
    pub fn char_valid(&self, unicode: char) -> (r: bool)
        ensures
            r == char_valid_for(self.kind, unicode),
    {
        match self.kind {
            ViewKind::Hex(_) => ('0' <= unicode && unicode <= '9') || ('a' <= unicode && unicode
                <= 'f'),
            ViewKind::Dec(_) => '0' <= unicode && unicode <= '9',
            ViewKind::Text(_) => (unicode as u32) < 128,
            ViewKind::Block => false,
        }
    }

    /// Drops what was typed into the cell under edit.
    pub fn cancel_editing(&mut self)
        ensures
            final(self).kind == kind_reset(old(self).kind),
            final(self).same_but_kind(*old(self)),
    {
        self.reset_edit_buf();
    }

    /// Everything but the kind is the same in both.
    pub open spec fn same_but_kind(self, other: View) -> bool {
        &&& self.viewport_rect == other.viewport_rect
        &&& self.col_w == other.col_w
        &&& self.row_h == other.row_h
        &&& self.scroll_offset == other.scroll_offset
        &&& self.scroll_speed == other.scroll_speed
        &&& self.bytes_per_block == other.bytes_per_block
        &&& self.active == other.active
    }

    /// Resets the edit buffer, if the view has one.
    pub fn reset_edit_buf(&mut self)
        ensures
            final(self).kind == kind_reset(old(self).kind),
            final(self).same_but_kind(*old(self)),
    {
        match &mut self.kind {
            ViewKind::Hex(hex) => hex.edit_buf.reset(),
            ViewKind::Dec(dec) => dec.edit_buf.reset(),
            ViewKind::Text(text) => text.edit_buf.reset(),
            ViewKind::Block => {},
        }
    }

    /// Marks the edit buffer, if the view has one, as holding nothing typed.
    pub fn undirty_edit_buffer(&mut self)
        ensures
            final(self).kind == match edit_buf_of(old(self).kind) {
                Some(eb) => with_edit_buf(old(self).kind, EditBuffer { dirty: false, ..eb }),
                None => old(self).kind,
            },
            final(self).same_but_kind(*old(self)),
    {
        match &mut self.kind {
            ViewKind::Hex(hex) => hex.edit_buf.dirty = false,
            ViewKind::Dec(dec) => dec.edit_buf.dirty = false,
            ViewKind::Text(text) => text.edit_buf.dirty = false,
            ViewKind::Block => {},
        }
    }

    /// The edit buffer, if the view has one, for changing it in place.
    pub fn edit_buffer_mut(&mut self) -> (r: Option<&mut EditBuffer>)
        ensures
            r is Some == edit_buf_of(old(self).kind) is Some,
            r is Some ==> *r.unwrap() == edit_buf_of(old(self).kind).unwrap(),
            r is Some ==> final(self).kind == with_edit_buf(old(self).kind, *final(r.unwrap())),
            final(self).same_but_kind(*old(self)),
            r is None ==> final(self).kind == old(self).kind,
    {
        match &mut self.kind {
            ViewKind::Hex(data) => Some(&mut data.edit_buf),
            ViewKind::Dec(data) => Some(&mut data.edit_buf),
            ViewKind::Text(data) => Some(&mut data.edit_buf),
            ViewKind::Block => None,
        }
    }
}

} // verus!
