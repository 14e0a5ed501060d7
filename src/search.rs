use vstd::prelude::*;

verus! {

/// `needle` occurs in `hay` starting at offset `i`.
pub open spec fn matches_at(hay: Seq<u8>, needle: Seq<u8>, i: int) -> bool {
    0 <= i && i + needle.len() <= hay.len() && hay.subrange(i, i + needle.len()) == needle
}

/// `offsets` lists every offset where `needle` occurs in `hay`, overlapping
/// occurrences included, in increasing order and each once.
pub open spec fn lists_all_matches(hay: Seq<u8>, needle: Seq<u8>, offsets: Seq<usize>) -> bool {
    &&& forall|k: int, l: int| 0 <= k < l < offsets.len() ==> offsets[k] < offsets[l]
    &&& forall|k: int| 0 <= k < offsets.len() ==> matches_at(hay, needle, #[trigger] offsets[k] as int)
    &&& forall|i: int| matches_at(hay, needle, i) ==> exists|k: int| 0 <= k < offsets.len() && #[trigger] offsets[k] == i
}

/// Relies on memchr::memmem::find, which returns the offset of the first
/// occurrence of `needle` in `haystack` (an empty needle occurs at every
/// offset), or nothing when there is none.
#[verifier::external_body]
fn memmem_find(haystack: &[u8], needle: &[u8]) -> (r: Option<usize>)
    ensures
        match r {
            Some(i) => matches_at(haystack@, needle@, i as int) && forall|j: int|
                0 <= j < i ==> !matches_at(haystack@, needle@, j),
            None => forall|j: int| !matches_at(haystack@, needle@, j),
        },
{
    memchr::memmem::find(haystack, needle)
}

/// Every offset where `needle` occurs in `hay`, in increasing order,
/// overlapping occurrences included.
pub fn find_all(hay: &[u8], needle: &[u8]) -> (r: Vec<usize>)
    ensures
        lists_all_matches(hay@, needle@, r@),
{
    let mut out: Vec<usize> = Vec::new();
    let mut pos: usize = 0;
    let mut done = false;
    while !done
        invariant
            pos <= hay@.len(),
            forall|k: int, l: int| 0 <= k < l < out@.len() ==> out@[k] < out@[l],
            !done ==> forall|k: int| 0 <= k < out@.len() ==> out@[k] < pos,
            forall|k: int| 0 <= k < out@.len() ==> matches_at(hay@, needle@, #[trigger] out@[k] as int),
            forall|i: int|
                matches_at(hay@, needle@, i) && (i < pos || done) ==> exists|k: int|
                    0 <= k < out@.len() && #[trigger] out@[k] == i,
        decreases hay@.len() - pos + (if done { 0int } else { 1int }),
    {
        let rest = vstd::slice::slice_subrange(hay, pos, hay.len());
        let ghost before = out@;
        match memmem_find(rest, needle) {
            None => {
                assert forall|i: int| matches_at(hay@, needle@, i) implies i < pos by {
                    if i >= pos {
                        assert(rest@.subrange(i - pos, i - pos + needle@.len()) =~= hay@.subrange(
                            i,
                            i + needle@.len(),
                        ));
                        assert(matches_at(rest@, needle@, i - pos));
                    }
                }
                done = true;
            },
            Some(i) => {
                let found = pos + i;
                assert(rest@.subrange(i as int, i + needle@.len()) =~= hay@.subrange(
                    found as int,
                    found + needle@.len(),
                ));
                assert forall|j: int| pos <= j < found implies !matches_at(hay@, needle@, j) by {
                    if matches_at(hay@, needle@, j) {
                        assert(rest@.subrange(j - pos, j - pos + needle@.len()) =~= hay@.subrange(
                            j,
                            j + needle@.len(),
                        ));
                        assert(matches_at(rest@, needle@, j - pos));
                    }
                }
                out.push(found);
                assert(out@[out@.len() - 1] == found);
                assert forall|m: int|
                    matches_at(hay@, needle@, m) && m <= found implies exists|k: int|
                        0 <= k < out@.len() && #[trigger] out@[k] == m by {
                    if m == found {
                        assert(out@[out@.len() - 1] == m);
                    } else {
                        let k = choose|k: int| 0 <= k < before.len() && #[trigger] before[k] == m;
                        assert(out@[k] == m);
                    }
                }
                if found >= hay.len() {
                    assert forall|m: int| matches_at(hay@, needle@, m) implies m <= found by {}
                    done = true;
                } else {
                    pos = found + 1;
                }
            },
        }
    }
    out
}

} // verus!
