use vstd::prelude::*;

verus! {

/// Digits or characters typed so far for the cell under edit.
///
/// `buf` holds one entry per glyph of the cell, `cursor` the glyph that the
/// next keystroke fills, and `dirty` whether anything was typed since the
/// last reset.
#[derive(Clone, Debug)]
pub struct EditBuffer {
    pub buf: Vec<u8>,
    pub cursor: u16,
    pub dirty: bool,
}

impl EditBuffer {
    /// The cursor points at a glyph of the buffer, or at 0 in an empty one.
    pub open spec fn wf(&self) -> bool {
        &&& self.buf@.len() <= u16::MAX
        &&& (self.cursor as int) < self.buf@.len() || (self.cursor == 0 && self.buf@.len() == 0)
    }

    pub fn new() -> (r: EditBuffer)
        ensures
            r.buf@.len() == 0,
            r.cursor == 0,
            !r.dirty,
            r.wf(),
    {
        EditBuffer { buf: Vec::new(), cursor: 0, dirty: false }
    }

    /// Gives the buffer `new_size` glyphs: the first ones are kept, new ones
    /// are zero. A cursor that no longer points into the buffer goes back to
    /// the first glyph.
    pub fn resize(&mut self, new_size: u16)
        ensures
            final(self).buf@.len() == new_size,
            forall|i: int|
                0 <= i < new_size ==> #[trigger] final(self).buf@[i] == if i < old(self).buf@.len() {
                    old(self).buf@[i]
                } else {
                    0u8
                },
            final(self).cursor == if (old(self).cursor as int) < new_size {
                old(self).cursor
            } else {
                0
            },
            final(self).dirty == old(self).dirty,
            final(self).wf(),
    {
        let n = new_size as usize;
        if n <= self.buf.len() {
            self.buf.truncate(n);
        } else {
            let ghost before = self.buf@;
            while self.buf.len() < n
                invariant
                    before.len() <= self.buf@.len() <= n,
                    self.buf@.subrange(0, before.len() as int) == before,
                    forall|i: int| before.len() <= i < self.buf@.len() ==> self.buf@[i] == 0u8,
                    self.cursor == old(self).cursor,
                    self.dirty == old(self).dirty,
                decreases n - self.buf@.len(),
            {
                self.buf.push(0);
            }
            assert forall|i: int| 0 <= i < before.len() implies self.buf@[i] == before[i] by {
                assert(self.buf@.subrange(0, before.len() as int)[i] == self.buf@[i]);
            }
        }
        if self.cursor >= new_size {
            self.cursor = 0;
        }
    }

    /// Stores `byte` at the cursor and moves the cursor on. Returns whether
    /// that filled the cell; the buffer is then reset, its contents kept.
    pub fn enter_byte(&mut self, byte: u8) -> (filled: bool)
        requires
            old(self).wf(),
            (old(self).cursor as int) < old(self).buf@.len(),
        ensures
            final(self).buf@ == old(self).buf@.update(old(self).cursor as int, byte),
            filled == (old(self).cursor + 1 >= old(self).buf@.len()),
            filled ==> final(self).cursor == 0 && !final(self).dirty,
            !filled ==> final(self).cursor == old(self).cursor + 1 && final(self).dirty,
            final(self).wf(),
    {
        let i = self.cursor as usize;
        self.buf.set(i, byte);
        self.dirty = true;
        self.cursor = self.cursor + 1;
        if self.cursor as usize >= self.buf.len() {
            self.reset();
            true
        } else {
            false
        }
    }

    /// Moves the cursor back to the first glyph and forgets that anything
    /// was typed. The glyphs stay as they were.
    pub fn reset(&mut self)
        ensures
            old(self).buf@.len() <= u16::MAX ==> final(self).wf(),
            final(self).buf == old(self).buf,
            final(self).cursor == 0,
            !final(self).dirty,
    {
        self.cursor = 0;
        self.dirty = false;
    }

    /// Overwrites the first glyphs with `text`.
    pub fn update_from_string(&mut self, text: &[u8])
        requires
            text@.len() <= old(self).buf@.len(),
        ensures
            final(self).buf@ == text@ + old(self).buf@.subrange(
                text@.len() as int,
                old(self).buf@.len() as int,
            ),
            final(self).cursor == old(self).cursor,
            final(self).dirty == old(self).dirty,
    {
        let mut i: usize = 0;
        while i < text.len()
            invariant
                i <= text@.len() <= old(self).buf@.len(),
                self.buf@.len() == old(self).buf@.len(),
                forall|j: int| 0 <= j < i ==> self.buf@[j] == text@[j],
                forall|j: int| i <= j < self.buf@.len() ==> self.buf@[j] == old(self).buf@[j],
                self.cursor == old(self).cursor,
                self.dirty == old(self).dirty,
            decreases text@.len() - i,
        {
            self.buf.set(i, text[i]);
            i = i + 1;
        }
        assert(self.buf@ =~= text@ + old(self).buf@.subrange(
            text@.len() as int,
            old(self).buf@.len() as int,
        ));
    }
}

impl Default for EditBuffer {
    fn default() -> (r: EditBuffer)
        ensures
            r.buf@.len() == 0,
            r.cursor == 0,
            !r.dirty,
    {
        EditBuffer::new()
    }
}

} // verus!
