use vstd::prelude::*;

use crate::region::Region;

verus! {

/// What an optional borrowed slice holds, as a sequence.
pub open spec fn opt_view(r: Option<&[u8]>) -> Option<Seq<u8>> {
    match r {
        Some(s) => Some(s@),
        None => None,
    }
}

/// The bytes `start..end` of `b`, if that range lies within it.
pub open spec fn range_spec(b: Seq<u8>, start: int, end: int) -> Option<Seq<u8>> {
    if 0 <= start <= end <= b.len() {
        Some(b.subrange(start, end))
    } else {
        None
    }
}

/// At most `bound` bytes of `b` from `start` on: all of them up to the end
/// when fewer remain. Nothing when `start` lies past the end.
pub open spec fn bounded_spec(b: Seq<u8>, start: int, bound: int) -> Option<Seq<u8>> {
    if 0 <= start <= b.len() {
        Some(b.subrange(start, vstd::math::min(b.len() as int, start + bound)))
    } else {
        None
    }
}

/// The byte at `idx`, if `b` reaches it.
pub open spec fn byte_spec(b: Seq<u8>, idx: int) -> Option<u8> {
    if 0 <= idx < b.len() {
        Some(b[idx])
    } else {
        None
    }
}

/// The bytes `start..end`, if that range lies within `bytes`.
pub fn range_of(bytes: &[u8], start: usize, end: usize) -> (r: Option<&[u8]>)
    ensures
        opt_view(r) == range_spec(bytes@, start as int, end as int),
{
    if start <= end && end <= bytes.len() {
        Some(vstd::slice::slice_subrange(bytes, start, end))
    } else {
        None
    }
}

/// At most `bound` bytes from `start` on.
pub fn bounded_from(bytes: &[u8], start: usize, bound: usize) -> (r: Option<&[u8]>)
    ensures
        opt_view(r) == bounded_spec(bytes@, start as int, bound as int),
{
    let len = bytes.len();
    if start > len {
        return None;
    }
    let stop = if bound <= len - start {
        start + bound
    } else {
        len
    };
    Some(vstd::slice::slice_subrange(bytes, start, stop))
}

/// The byte at `idx`, if `bytes` reaches it.
pub fn byte_at(bytes: &[u8], idx: usize) -> (r: Option<u8>)
    ensures
        r == byte_spec(bytes@, idx as int),
{
    if idx < bytes.len() {
        Some(bytes[idx])
    } else {
        None
    }
}

/// The bytes of an inclusive range, if it lies within `bytes`.
pub fn inclusive_of(bytes: &[u8], range: Region) -> (r: Option<&[u8]>)
    ensures
        opt_view(r) == range_spec(bytes@, range.begin as int, range.end + 1),
{
    if range.end < bytes.len() {
        range_of(bytes, range.begin, range.end + 1)
    } else {
        None
    }
}

} // verus!
