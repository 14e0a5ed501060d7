use vstd::prelude::*;

use crate::region::Region;
use crate::search::{find_all, lists_all_matches};
use crate::slices::{
    bounded_from, bounded_spec, byte_at, byte_spec, inclusive_of, opt_view, range_of, range_spec,
};
use crate::source_access::SingleBufferAccessor;

verus! {

#[verifier::external_type_specification]
#[verifier::external_body]
pub struct ExMmap(memmap2::Mmap);

/// Relies on memmap2's `Deref<Target = [u8]>` for `Mmap`: the mapped bytes
/// as one slice. They are the file's contents, so nothing is stated of them.
#[verifier::external_body]
fn mapped_bytes(m: &memmap2::Mmap) -> (r: &[u8]) {
    &m[..]
}

/// Reads a file through a memory mapping. The mapping is read-only.
///
/// What the mapped bytes hold comes from the file, so the reads state what
/// holds of the bytes seen at the time of the call; the verified helpers in
/// `slices` do the rest on them.
pub struct MemmapAccessor {
    mmap: memmap2::Mmap,
    len: usize,
}

impl MemmapAccessor {
    /// The length of the mapping, recorded when it was taken.
    pub closed spec fn len_spec(&self) -> nat {
        self.len as nat
    }

    /// Takes a mapping and records its length, which a mapping keeps for its
    /// whole life.
    pub fn new(mmap: memmap2::Mmap) -> (r: MemmapAccessor) {
        let len = mapped_bytes(&mmap).len();
        MemmapAccessor { mmap, len }
    }

    /// The bytes of `range`, if it lies within the mapping.
    pub fn get_range(&self, range: std::ops::Range<usize>) -> (r: Option<&[u8]>)
        ensures
            exists|b: Seq<u8>| opt_view(r) == #[trigger] range_spec(b, range.start as int, range.end as int),
    {
        range_of(mapped_bytes(&self.mmap), range.start, range.end)
    }

    /// The bytes of an inclusive range, if it lies within the mapping.
    pub fn get_range_inclusive(&self, range: Region) -> (r: Option<&[u8]>)
        ensures
            exists|b: Seq<u8>| opt_view(r) == #[trigger] range_spec(b, range.begin as int, range.end + 1),
    {
        inclusive_of(mapped_bytes(&self.mmap), range)
    }

    /// At most `bound` bytes from `start` on, if `start` lies within the
    /// mapping.
    pub fn get_range_from_upper_bound(&self, start: usize, bound: usize) -> (r: Option<&[u8]>)
        ensures
            exists|b: Seq<u8>| opt_view(r) == #[trigger] bounded_spec(b, start as int, bound as int),
    {
        bounded_from(mapped_bytes(&self.mmap), start, bound)
    }

    /// The byte at `idx`, if the mapping reaches it.
    pub fn index_byte(&self, idx: usize) -> (r: Option<u8>)
        ensures
            exists|b: Seq<u8>| r == #[trigger] byte_spec(b, idx as int),
    {
        byte_at(mapped_bytes(&self.mmap), idx)
    }

    pub fn source_len(&self) -> (r: usize)
        ensures
            r == self.len_spec(),
    {
        self.len
    }

    /// A copy of the mapped bytes.
    pub fn iter(&self) -> (r: Vec<u8>) {
        vstd::slice::slice_to_vec(mapped_bytes(&self.mmap))
    }

    /// Every offset where `needle` occurs in the mapped bytes, overlapping
    /// occurrences included.
    pub fn find_iter(&self, needle: &[u8]) -> (r: Vec<usize>)
        ensures
            exists|bytes: Seq<u8>| lists_all_matches(bytes, needle@, r@),
    {
        let bytes = mapped_bytes(&self.mmap);
        let r = find_all(bytes, needle);
        assert(lists_all_matches(bytes@, needle@, r@));
        r
    }
}

/// The backing store of the data: one buffer in memory, or a read-only
/// memory mapping of a file.
pub enum SourceAccessEnum {
    SingleBuffer(SingleBufferAccessor),
    Memmap(MemmapAccessor),
}

impl SourceAccessEnum {
    /// The bytes, where they are held in memory.
    pub open spec fn buffer(&self) -> Option<Seq<u8>> {
        match self {
            SourceAccessEnum::SingleBuffer(a) => Some(a@),
            SourceAccessEnum::Memmap(_) => None,
        }
    }

    /// The length of the source.
    pub open spec fn len_spec(&self) -> nat {
        match self {
            SourceAccessEnum::SingleBuffer(a) => a@.len(),
            SourceAccessEnum::Memmap(m) => m.len_spec(),
        }
    }

    /// The bytes of `range`, if it lies within the source.
    pub fn get_range(&self, range: std::ops::Range<usize>) -> (r: Option<&[u8]>)
        ensures
            exists|b: Seq<u8>| opt_view(r) == #[trigger] range_spec(b, range.start as int, range.end as int),
            self.buffer() matches Some(b) ==> opt_view(r) == range_spec(
                b,
                range.start as int,
                range.end as int,
            ),
    {
        match self {
            SourceAccessEnum::SingleBuffer(a) => a.get_range(range),
            SourceAccessEnum::Memmap(a) => a.get_range(range),
        }
    }

    /// The bytes of an inclusive range, if it lies within the source.
    pub fn get_range_inclusive(&self, range: Region) -> (r: Option<&[u8]>)
        ensures
            exists|b: Seq<u8>| opt_view(r) == #[trigger] range_spec(b, range.begin as int, range.end + 1),
            self.buffer() matches Some(b) ==> opt_view(r) == range_spec(
                b,
                range.begin as int,
                range.end + 1,
            ),
    {
        match self {
            SourceAccessEnum::SingleBuffer(a) => inclusive_of(a.0.as_slice(), range),
            SourceAccessEnum::Memmap(m) => m.get_range_inclusive(range),
        }
    }

    /// At most `bound` bytes from `start` on, if `start` lies within the
    /// source: the same ceiling for every kind of source.
    pub fn get_range_from_upper_bound(&self, start: usize, bound: usize) -> (r: Option<&[u8]>)
        ensures
            exists|b: Seq<u8>| opt_view(r) == #[trigger] bounded_spec(b, start as int, bound as int),
            self.buffer() matches Some(b) ==> opt_view(r) == bounded_spec(
                b,
                start as int,
                bound as int,
            ),
    {
        match self {
            SourceAccessEnum::SingleBuffer(a) => a.get_range_from_upper_bound(start, bound),
            SourceAccessEnum::Memmap(a) => a.get_range_from_upper_bound(start, bound),
        }
    }

    /// The byte at `idx`, if the source reaches it.
    pub fn index_byte(&self, idx: usize) -> (r: Option<u8>)
        ensures
            exists|b: Seq<u8>| r == #[trigger] byte_spec(b, idx as int),
            self.buffer() matches Some(b) ==> r == byte_spec(b, idx as int),
    {
        match self {
            SourceAccessEnum::SingleBuffer(a) => byte_at(a.0.as_slice(), idx),
            SourceAccessEnum::Memmap(a) => a.index_byte(idx),
        }
    }

    /// The bytes of `range` for writing. Only a buffer can be written; a
    /// mapping here is the caller's error, left out by the precondition.
    pub fn get_range_mut(&mut self, range: std::ops::Range<usize>) -> (r: Option<&mut [u8]>)
        requires
            old(self).buffer() is Some,
        ensures
            ({
                let b = old(self).buffer().unwrap();
                &&& r is Some == (range.start <= range.end <= b.len())
                &&& r is Some ==> (*r.unwrap())@ == b.subrange(range.start as int, range.end as int)
                &&& r is Some ==> final(self).buffer() == Some(b.subrange(0, range.start as int)
                    + (*final(r.unwrap()))@ + b.subrange(range.end as int, b.len() as int))
                &&& r is None ==> final(self).buffer() == old(self).buffer()
            }),
    {
        match self {
            SourceAccessEnum::SingleBuffer(a) => a.get_range_mut(range),
            SourceAccessEnum::Memmap(_) => None,
        }
    }

    /// Writes the byte at `idx`, in a buffer that reaches it.
    pub fn set_byte(&mut self, idx: usize, value: u8)
        requires
            old(self).buffer() matches Some(b) && idx < b.len(),
        ensures
            final(self).buffer() == Some(old(self).buffer().unwrap().update(idx as int, value)),
    {
        match self {
            SourceAccessEnum::SingleBuffer(a) => a.set_byte(idx, value),
            SourceAccessEnum::Memmap(_) => {},
        }
    }

    pub fn source_len(&self) -> (r: usize)
        ensures
            r == self.len_spec(),
    {
        match self {
            SourceAccessEnum::SingleBuffer(a) => a.source_len(),
            SourceAccessEnum::Memmap(a) => a.source_len(),
        }
    }

    /// Gives back the memory, mapping or buffer, and leaves an empty buffer.
    pub fn make_empty_and_free(&mut self)
        ensures
            final(self).buffer() == Some(Seq::<u8>::empty()),
            final(self).len_spec() == 0,
    {
        *self = SourceAccessEnum::SingleBuffer(SingleBufferAccessor::from_vec(Vec::new()));
    }

    /// The buffer, for the parts that work on one buffer only.
    pub fn downcast_to_single_buffer_vec(&mut self) -> (r: Option<&mut Vec<u8>>)
        ensures
            r is Some == old(self).buffer() is Some,
            r is None ==> *final(self) == *old(self),
            r is Some ==> (*r.unwrap())@ == old(self).buffer().unwrap(),
            r is Some ==> final(self).buffer() == Some((*final(r.unwrap()))@),
    {
        match self {
            SourceAccessEnum::SingleBuffer(a) => a.downcast_to_single_buffer_vec(),
            SourceAccessEnum::Memmap(_) => None,
        }
    }

    /// All the bytes, in order, as they are now.
    pub fn iter(&self) -> (r: Vec<u8>)
        ensures
            self.buffer() matches Some(b) ==> r@ == b,
    {
        match self {
            SourceAccessEnum::SingleBuffer(a) => a.iter(),
            SourceAccessEnum::Memmap(m) => m.iter(),
        }
    }

    /// Every offset where `needle` occurs, overlapping occurrences included.
    pub fn find_iter(&self, needle: &[u8]) -> (r: Vec<usize>)
        ensures
            exists|bytes: Seq<u8>| lists_all_matches(bytes, needle@, r@),
            self.buffer() matches Some(b) ==> lists_all_matches(b, needle@, r@),
    {
        match self {
            SourceAccessEnum::SingleBuffer(a) => {
                let r = a.find_iter(needle);
                assert(lists_all_matches(a@, needle@, r@));
                r
            },
            SourceAccessEnum::Memmap(m) => m.find_iter(needle),
        }
    }
}

} // verus!
