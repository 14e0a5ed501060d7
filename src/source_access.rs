use vstd::prelude::*;

use crate::region::Region;
use crate::search::{find_all, lists_all_matches};
use crate::slices::{bounded_from, bounded_spec, opt_view, range_of, range_spec};

verus! {

/// Whether the source may be read and written.
#[derive(Clone, Copy, Debug, PartialEq, Eq, Structural)]
pub struct SourcePermissions {
    pub read: bool,
    pub write: bool,
}

/// What kind of source the bytes come from.
#[derive(Clone, Copy, Debug, PartialEq, Eq, Structural)]
pub struct SourceAttributes {
    pub seekable: bool,
    pub stream: bool,
    pub permissions: SourcePermissions,
}

impl SourceAttributes {
    /// Standard input: a stream that can be read once, front to back.
    pub fn stdin() -> (r: SourceAttributes)
        ensures
            r == (SourceAttributes {
                seekable: false,
                stream: true,
                permissions: SourcePermissions { read: true, write: false },
            }),
    {
        SourceAttributes {
            seekable: false,
            stream: true,
            permissions: SourcePermissions { read: true, write: false },
        }
    }

    /// A file, writable unless opened read-only.
    pub fn file(stream: bool, read_only: bool) -> (r: SourceAttributes)
        ensures
            r == (SourceAttributes {
                seekable: true,
                stream,
                permissions: SourcePermissions { read: true, write: !read_only },
            }),
    {
        SourceAttributes {
            seekable: true,
            stream,
            permissions: SourcePermissions { read: true, write: !read_only },
        }
    }
}

/// Whether a file argument names standard input: it is the single
/// character `-`.
pub fn names_stdin(arg: &[u8]) -> (r: bool)
    ensures
        r == (arg@ == seq![45u8]),
{
    if arg.len() == 1 && arg[0] == 45 {
        assert(arg@ =~= seq![45u8]);
        true
    } else {
        false
    }
}

/// What came of an attempt to open the source named by the arguments.
#[derive(Clone, Debug)]
pub enum OpenOutcome {
    /// The arguments name no source.
    NoFile,
    /// Standard input, read later as a stream.
    Stdin,
    /// A file was opened. `contents` holds what was read from it; it is
    /// nothing for a file that is streamed.
    File { contents: Option<Vec<u8>>, stream: bool, read_only: bool },
    /// Opening or reading failed; the failure was reported.
    Failed,
}

/// Copies data from the source into a single contiguous buffer, which holds
/// all the accessible data.
pub struct SingleBufferAccessor(pub Vec<u8>);

impl vstd::view::View for SingleBufferAccessor {
    type V = Seq<u8>;

    open spec fn view(&self) -> Seq<u8> {
        self.0@
    }
}

impl SingleBufferAccessor {
    /// Create from an existing buffer
    pub fn from_vec(data: Vec<u8>) -> (r: SingleBufferAccessor)
        ensures
            r@ == data@,
    {
        SingleBufferAccessor(data)
    }

    /// The bytes of `range`, if it lies within the buffer.
    pub fn get_range(&self, range: std::ops::Range<usize>) -> (r: Option<&[u8]>)
        ensures
            opt_view(r) == range_spec(self@, range.start as int, range.end as int),
    {
        range_of(self.0.as_slice(), range.start, range.end)
    }

    /// The bytes of `range`, which must lie within the buffer.
    pub fn slice_range(&self, range: std::ops::Range<usize>) -> (r: &[u8])
        requires
            range.start <= range.end <= self@.len(),
        ensures
            r@ == self@.subrange(range.start as int, range.end as int),
    {
        vstd::slice::slice_subrange(self.0.as_slice(), range.start, range.end)
    }

    /// The bytes of an inclusive range, which must lie within the buffer.
    pub fn slice_range_inclusive(&self, range: Region) -> (r: &[u8])
        requires
            range.wf(),
            range.end < self@.len(),
        ensures
            r@ == self@.subrange(range.begin as int, range.end + 1),
    {
        let bytes = self.0.as_slice();
        let stop = if range.end < bytes.len() {
            range.end + 1
        } else {
            bytes.len()
        };
        vstd::slice::slice_subrange(bytes, range.begin, stop)
    }

    /// The bytes of `range` for writing, if it lies within the buffer. The
    /// buffer afterwards holds whatever was written there.
    pub fn get_range_mut(&mut self, range: std::ops::Range<usize>) -> (r: Option<&mut [u8]>)
        ensures
            r is Some == (range.start <= range.end <= old(self)@.len()),
            r is Some ==> (*r.unwrap())@ == old(self)@.subrange(range.start as int, range.end as int),
            r is Some ==> final(self)@ == old(self)@.subrange(0, range.start as int)
                + (*final(r.unwrap()))@ + old(self)@.subrange(range.end as int, old(self)@.len() as int),
            r is None ==> final(self)@ == old(self)@,
    {
        if range.start <= range.end && range.end <= self.0.len() {
            let all = self.0.as_mut_slice();
            let (_, rest) = all.split_at_mut(range.start);
            let (mid, _) = rest.split_at_mut(range.end - range.start);
            Some(mid)
        } else {
            None
        }
    }

    /// At most `bound` bytes from `start` on, which must lie within the
    /// buffer: fewer only where the buffer ends first. The bound is kept even
    /// where more could be given, so that all sources behave alike.
    pub fn slice_range_from_upper_bound(&self, start: usize, bound: usize) -> (r: &[u8])
        requires
            start <= self@.len(),
        ensures
            Some(r@) == bounded_spec(self@, start as int, bound as int),
    {
        bounded_from(self.0.as_slice(), start, bound).unwrap()
    }

    /// At most `bound` bytes from `start` on, if `start` lies within the
    /// buffer.
    pub fn get_range_from_upper_bound(&self, start: usize, bound: usize) -> (r: Option<&[u8]>)
        ensures
            opt_view(r) == bounded_spec(self@, start as int, bound as int),
    {
        bounded_from(self.0.as_slice(), start, bound)
    }

    /// All the bytes, in order, as they are now.
    pub fn iter(&self) -> (r: Vec<u8>)
        ensures
            r@ == self@,
    {
        vstd::slice::slice_to_vec(self.0.as_slice())
    }

    pub fn index_byte(&self, idx: usize) -> (r: u8)
        requires
            idx < self@.len(),
        ensures
            r == self@[idx as int],
    {
        self.0[idx]
    }

    pub fn index_byte_mut(&mut self, idx: usize) -> (r: &mut u8)
        requires
            idx < old(self)@.len(),
        ensures
            *r == old(self)@[idx as int],
            final(self)@ == old(self)@.update(idx as int, *final(r)),
    {
        &mut self.0[idx]
    }

    /// Writes one byte.
    pub fn set_byte(&mut self, idx: usize, value: u8)
        requires
            idx < old(self)@.len(),
        ensures
            final(self)@ == old(self)@.update(idx as int, value),
    {
        self.0.set(idx, value);
    }

    pub fn source_len(&self) -> (r: usize)
        ensures
            r == self@.len(),
    {
        self.0.len()
    }

    /// Drops the buffer, giving its memory back.
    pub fn make_empty_and_free(&mut self)
        ensures
            final(self)@.len() == 0,
    {
        self.0 = Vec::new();
    }

    pub fn downcast_to_single_buffer_vec(&mut self) -> (r: Option<&mut Vec<u8>>)
        ensures
            r is Some,
            *r.unwrap() == old(self).0,
            final(self).0 == *final(r.unwrap()),
    {
        Some(&mut self.0)
    }

    /// Takes the outcome of opening the source that the arguments name, and
    /// records in `source` what kind of source it is. Returns whether a
    /// source is now bound. On failure nothing changes.
    pub fn open_file_from_args(
        &mut self,
        outcome: OpenOutcome,
        source: &mut Option<SourceAttributes>,
    ) -> (loaded: bool)
        ensures
            loaded == (outcome is Stdin || outcome is File),
            !loaded ==> final(self)@ == old(self)@ && *final(source) == *old(source),
            outcome is Stdin ==> final(self)@ == old(self)@ && *final(source) == Some(
                SourceAttributes::stdin_spec(),
            ),
            match outcome {
                OpenOutcome::File { contents, stream, read_only } => {
                    &&& *final(source) == Some(SourceAttributes::file_spec(stream, read_only))
                    &&& final(self)@ == match contents {
                        Some(d) => d@,
                        None => Seq::<u8>::empty(),
                    }
                },
                _ => true,
            },
    {
        match outcome {
            OpenOutcome::NoFile => false,
            OpenOutcome::Failed => false,
            OpenOutcome::Stdin => {
                *source = Some(SourceAttributes::stdin());
                true
            },
            OpenOutcome::File { contents, stream, read_only } => {
                match contents {
                    Some(data) => {
                        self.0 = data;
                    },
                    None => {
                        self.0.clear();
                    },
                }
                *source = Some(SourceAttributes::file(stream, read_only));
                true
            },
        }
    }

    /// Every offset where `needle` occurs, overlapping occurrences included.
    pub fn find_iter(&self, needle: &[u8]) -> (r: Vec<usize>)
        ensures
            lists_all_matches(self@, needle@, r@),
    {
        find_all(self.0.as_slice(), needle)
    }
}

impl SourceAttributes {
    pub open spec fn stdin_spec() -> SourceAttributes {
        SourceAttributes {
            seekable: false,
            stream: true,
            permissions: SourcePermissions { read: true, write: false },
        }
    }

    pub open spec fn file_spec(stream: bool, read_only: bool) -> SourceAttributes {
        SourceAttributes {
            seekable: true,
            stream,
            permissions: SourcePermissions { read: true, write: !read_only },
        }
    }
}

} // verus!
