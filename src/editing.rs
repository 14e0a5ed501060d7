use vstd::prelude::*;
use vstd::view::View as _;

use crate::app::{write_outcome, App, CommitError};
use crate::hex_conv::{
    byte_dec_text, byte_hex_text, dec_text, hex_text, hex_value, merge_hex_halves, parse_dec,
    parse_dec_u8,
};
use crate::view::{char_valid_for, edit_buf_of, kind_reset, same_kind_settings, View, ViewKind};

verus! {

/// The byte that the edit buffer of a kind spells: two hex digits, three
/// decimal digits, or one character. Nothing where it spells no byte.
pub open spec fn committed_byte(kind: ViewKind) -> Option<u8> {
    match kind {
        ViewKind::Hex(d) => match (hex_value(d.edit_buf.buf@[0]), hex_value(d.edit_buf.buf@[1])) {
            (Some(h), Some(l)) => Some((h * 16 + l) as u8),
            _ => None,
        },
        ViewKind::Dec(d) => parse_dec(d.edit_buf.buf@),
        ViewKind::Text(d) => Some(d.edit_buf.buf@[0]),
        ViewKind::Block => None,
    }
}

/// The text that a fresh edit of a hex or decimal cell starts from: the
/// current byte's digits.
pub open spec fn seed_text(kind: ViewKind, b: u8) -> Seq<u8> {
    match kind {
        ViewKind::Hex(_) => hex_text(b),
        ViewKind::Dec(_) => dec_text(b),
        _ => Seq::empty(),
    }
}

/// The glyph that a typed character stores: hex digits in upper case, any
/// other accepted character as it is.
pub open spec fn glyph_of(kind: ViewKind, c: char) -> u8 {
    match kind {
        ViewKind::Hex(_) => if 'a' <= c <= 'f' {
            (c as u32 - 32) as u8
        } else {
            c as u32 as u8
        },
        _ => c as u32 as u8,
    }
}

/// The cursor after a commit: one byte on, unless the edit is sticky or
/// the cursor is on the last byte.
pub open spec fn cursor_after_commit(a: App) -> usize {
    if a.cursor + 1 < a.data.len_spec() && !a.preferences.sticky_edit {
        (a.cursor + 1) as usize
    } else {
        a.cursor
    }
}

/// The effect of committing the cell under edit.
///
/// The byte that the buffer spells is written at the cursor (see
/// `write_outcome`); a buffer that spells no byte is refused with
/// `InvalidValue` and nothing is written; a block view writes nothing. In
/// every case the cursor moves on and the edit buffer is reset.
pub open spec fn commit_outcome(
    v0: View,
    a0: App,
    v1: View,
    a1: App,
    r: Result<bool, CommitError>,
) -> bool {
    &&& v1.kind == kind_reset(v0.kind)
    &&& v1.same_but_kind(v0)
    &&& a1.source == a0.source
    &&& a1.preferences == a0.preferences
    &&& a1.hard_seek == a0.hard_seek
    &&& a1.cursor == cursor_after_commit(a0)
    &&& if v0.kind is Block {
        &&& r == Ok::<bool, CommitError>(false)
        &&& a1.data == a0.data
        &&& a1.dirty_region == a0.dirty_region
    } else {
        match committed_byte(v0.kind) {
            None => {
                &&& r == Err::<bool, CommitError>(CommitError::InvalidValue)
                &&& a1.data == a0.data
                &&& a1.dirty_region == a0.dirty_region
            },
            Some(value) => {
                let wr = match r {
                    Ok(_) => Ok::<(), CommitError>(()),
                    Err(e) => Err(e),
                };
                &&& r != Ok::<bool, CommitError>(false)
                &&& write_outcome(a0, a1, a0.cursor, value, wr)
            },
        }
    }
}

impl View {
    /// Commits the cell under edit: writes the byte that the edit buffer
    /// spells at the cursor, moves the cursor on and resets the buffer.
    /// Returns whether a byte was written, or why none was. A caller that
    /// saves after each commit does so on `Ok(true)`.
    pub fn finish_editing(&mut self, app: &mut App) -> (r: Result<bool, CommitError>)
        requires
            old(self).kind_adjusted(),
            old(app).wf(),
        ensures
            final(app).wf(),
            final(self).kind_adjusted(),
            commit_outcome(*old(self), *old(app), *final(self), *final(app), r),
    {
        let value: Option<Option<u8>> = match &self.kind {
            ViewKind::Hex(hex) => Some(merge_hex_halves(hex.edit_buf.buf[0], hex.edit_buf.buf[1])),
            ViewKind::Dec(dec) => Some(parse_dec_u8(dec.edit_buf.buf.as_slice())),
            ViewKind::Text(text) => Some(Some(text.edit_buf.buf[0])),
            ViewKind::Block => None,
        };
        let r = match value {
            None => Ok(false),
            Some(None) => Err(CommitError::InvalidValue),
            Some(Some(v)) => match app.write_byte(app.cursor, v) {
                Ok(()) => Ok(true),
                Err(e) => Err(e),
            },
        };
        let len = app.data.source_len();
        if app.cursor < len && len - app.cursor > 1 && !app.preferences.sticky_edit {
            app.cursor = app.cursor + 1;
        }
        self.reset_edit_buf();
        r
    }

    /// Handles a typed character. A character that the view does not
    /// accept is ignored. A hex or decimal cell that nothing was typed into
    /// yet first takes the digits of the byte at the cursor, so that typing
    /// one digit replaces only that digit. The glyph is stored at the edit
    /// cursor; when that fills the cell, or with quick edit on, the cell is
    /// committed (see `finish_editing`) and its outcome returned.
    pub fn handle_text_entered(&mut self, unicode: char, app: &mut App) -> (r: Option<
        Result<bool, CommitError>,
    >)
        requires
            old(self).kind_adjusted(),
            old(app).wf(),
        ensures
            final(app).wf(),
            final(self).kind_adjusted(),
            !char_valid_for(old(self).kind, unicode) ==> r is None && *final(self) == *old(self)
                && *final(app) == *old(app),
            char_valid_for(old(self).kind, unicode) && old(app).data.buffer() is Some ==> {
                let eb = edit_buf_of(old(self).kind).unwrap();
                let needs_seed = !eb.dirty && (old(self).kind is Hex || old(self).kind is Dec);
                let byte = old(app).data.buffer().unwrap()[old(app).cursor as int];
                let readable = old(app).data.buffer() matches Some(b) && old(app).cursor < b.len();
                let seeded = if needs_seed {
                    seed_text(old(self).kind, byte) + eb.buf@.subrange(
                        seed_text(old(self).kind, byte).len() as int,
                        eb.buf@.len() as int,
                    )
                } else {
                    eb.buf@
                };
                let entered = seeded.update(eb.cursor as int, glyph_of(old(self).kind, unicode));
                let filled = eb.cursor + 1 >= eb.buf@.len();
                if needs_seed && !readable {
                    r is None && *final(self) == *old(self) && *final(app) == *old(app)
                } else if filled || old(app).preferences.quick_edit {
                    &&& r matches Some(c)
                    &&& exists|staged: View|
                        {
                            &&& #[trigger] commit_outcome(staged, *old(app), *final(self), *final(app), c)
                            &&& staged.same_but_kind(*old(self))
                            &&& same_kind_settings(staged.kind, old(self).kind)
                            &&& staged.kind_adjusted()
                            &&& edit_buf_of(staged.kind) matches Some(sb)
                            &&& sb.buf@ == entered
                            &&& sb.cursor == (if filled {
                                0
                            } else {
                                eb.cursor + 1
                            })
                            &&& sb.dirty == !filled
                        }
                } else {
                    &&& r is None
                    &&& *final(app) == *old(app)
                    &&& final(self).same_but_kind(*old(self))
                    &&& edit_buf_of(final(self).kind) matches Some(nb)
                    &&& nb.buf@ == entered
                    &&& nb.cursor == eb.cursor + 1
                    &&& nb.dirty
                }
            },
    {
        if !self.char_valid(unicode) {
            return None;
        }
        let quick = app.preferences.quick_edit;
        let cursor = app.cursor;
        let commit = match &mut self.kind {
            ViewKind::Hex(hex) => {
                if !hex.edit_buf.dirty {
                    match app.data.index_byte(cursor) {
                        Some(b) => {
                            let digits = byte_hex_text(b);
                            hex.edit_buf.update_from_string(digits.as_slice());
                        },
                        None => {
                            return None;
                        },
                    }
                }
                let g = if 'a' <= unicode && unicode <= 'f' {
                    (unicode as u32 - 32) as u8
                } else {
                    unicode as u32 as u8
                };
                hex.edit_buf.enter_byte(g)
            },
            ViewKind::Dec(dec) => {
                if !dec.edit_buf.dirty {
                    match app.data.index_byte(cursor) {
                        Some(b) => {
                            let digits = byte_dec_text(b);
                            dec.edit_buf.update_from_string(digits.as_slice());
                        },
                        None => {
                            return None;
                        },
                    }
                }
                dec.edit_buf.enter_byte(unicode as u32 as u8)
            },
            ViewKind::Text(text) => text.edit_buf.enter_byte(unicode as u32 as u8),
            ViewKind::Block => {
                return None;
            },
        };
        if commit || quick {
            let ghost staged = *self;
            let c = self.finish_editing(app);
            assert(commit_outcome(staged, *old(app), *self, *app, c));
            Some(c)
        } else {
            None
        }
    }
}

} // verus!
