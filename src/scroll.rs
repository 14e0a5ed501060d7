use vstd::prelude::*;

verus! {

/// The pixel offset that a view keeps before the data when it goes home,
/// so that the first row and column do not touch the viewport's edge.
pub const COMFY_MARGIN: i16 = -12;

/// Where a scroll by `by` pixels leads from `whole` cells and `pixel`
/// pixels, with cells `cell` pixels wide.
///
/// Whole cells are taken out of the pixel remainder while it holds one; on
/// the way back, the whole count stops at 0 and the remainder may then go
/// as far below 0 as the scroll asks.
pub open spec fn scroll_result(whole: int, pixel: int, cell: int, by: int) -> (int, int) {
    let p = pixel + by;
    if p < 0 {
        let k = if whole <= (-p) / cell {
            whole
        } else {
            (-p) / cell
        };
        (whole - k, p + k * cell)
    } else {
        (whole + p / cell, p % cell)
    }
}

/// A scroll by `by` stays within the machine's integers.
pub open spec fn scroll_fits(whole: int, pixel: int, cell: int, by: int) -> bool {
    &&& cell > 0
    &&& i16::MIN <= pixel + by <= i16::MAX
    &&& (pixel + by >= 0 ==> whole + (pixel + by) / cell <= usize::MAX)
}

/// Where a sequence of scrolls leads, one after the other.
pub open spec fn scroll_seq(whole: int, pixel: int, cell: int, deltas: Seq<int>) -> (int, int)
    decreases deltas.len(),
{
    if deltas.len() == 0 {
        (whole, pixel)
    } else {
        let prev = scroll_seq(whole, pixel, cell, deltas.drop_last());
        scroll_result(prev.0, prev.1, cell, deltas.last())
    }
}

pub open spec fn sum_of(deltas: Seq<int>) -> int
    decreases deltas.len(),
{
    if deltas.len() == 0 {
        0
    } else {
        sum_of(deltas.drop_last()) + deltas.last()
    }
}

/// For `a >= 0` and `c > 0`: `m * c <= a` exactly when `m <= a / c`.
proof fn lemma_div_bound(a: int, c: int, m: int)
    requires
        a >= 0,
        c > 0,
    ensures
        (m * c <= a) == (m <= a / c),
        a / c >= 0,
        a / c * c <= a < (a / c + 1) * c,
        (a / c + 1) * c == a / c * c + c,
{
    vstd::arithmetic::div_mod::lemma_fundamental_div_mod(a, c);
    vstd::arithmetic::div_mod::lemma_mod_pos_bound(a, c);
    vstd::arithmetic::div_mod::lemma_div_pos_is_pos(a, c);
    let q = a / c;
    assert(q * c == c * q) by (nonlinear_arith);
    assert((q + 1) * c == q * c + c) by (nonlinear_arith);
    if m <= q {
        assert(m * c <= q * c) by (nonlinear_arith)
            requires
                m <= q,
                c > 0,
        ;
    } else {
        assert(m * c >= (q + 1) * c) by (nonlinear_arith)
            requires
                m >= q + 1,
                c > 0,
        ;
    }
}

/// One scroll keeps the absolute pixel position `whole * cell + pixel`, keeps
/// `whole` non-negative, and leaves a remainder below one cell, negative only
/// while whole cells remain or at the start of the data.
pub proof fn lemma_scroll_step(whole: int, pixel: int, cell: int, by: int)
    requires
        whole >= 0,
        cell > 0,
    ensures
        ({
            let r = scroll_result(whole, pixel, cell, by);
            &&& r.0 >= 0
            &&& r.0 * cell + r.1 == whole * cell + pixel + by
            &&& r.1 >= 0 ==> r.1 < cell
            &&& (r.1 < 0 && r.0 > 0) ==> r.1 > -cell
        }),
{
    let p = pixel + by;
    let r = scroll_result(whole, pixel, cell, by);
    if p < 0 {
        lemma_div_bound(-p, cell, 0);
        let q = (-p) / cell;
        let k = if whole <= q {
            whole
        } else {
            q
        };
        assert((whole - k) * cell + k * cell == whole * cell) by (nonlinear_arith);
        lemma_div_bound(-p, cell, whole);
    } else {
        lemma_div_bound(p, cell, 0);
        vstd::arithmetic::div_mod::lemma_fundamental_div_mod(p, cell);
        vstd::arithmetic::div_mod::lemma_mod_pos_bound(p, cell);
        assert((whole + p / cell) * cell == whole * cell + cell * (p / cell)) by (nonlinear_arith);
    }
}

/// Scrolls `whole` cells and `pixel` pixels by `scroll_by` pixels, with cells
/// `pixels_per_whole` pixels wide. See `scroll_result`.
pub fn scroll_impl(whole: &mut usize, pixel: &mut i16, pixels_per_whole: i16, scroll_by: i16)
    requires
        scroll_fits(*old(whole) as int, *old(pixel) as int, pixels_per_whole as int, scroll_by as int),
    ensures
        (*final(whole) as int, *final(pixel) as int) == scroll_result(
            *old(whole) as int,
            *old(pixel) as int,
            pixels_per_whole as int,
            scroll_by as int,
        ),
{
    let ghost w0 = *whole as int;
    let ghost c = pixels_per_whole as int;
    let ghost p0 = *pixel as int + scroll_by as int;
    let mut w: usize = *whole;
    let mut px: i16 = *pixel + scroll_by;
    if px < 0 {
        let ghost q = (-p0) / c;
        proof {
            lemma_div_bound(-p0, c, 0);
        }
        let ghost mut k: int = 0;
        while px <= -pixels_per_whole && w > 0
            invariant
                c == pixels_per_whole > 0,
                p0 < 0,
                q == (-p0) / c,
                0 <= k <= w0,
                k <= q,
                w == w0 - k,
                px == p0 + k * c,
                px <= 0,
            decreases w,
        {
            proof {
                lemma_div_bound(-p0, c, k + 1);
                assert((k + 1) * c == k * c + c) by (nonlinear_arith);
            }
            w = w - 1;
            px = px + pixels_per_whole;
            proof {
                k = k + 1;
            }
        }
        proof {
            if w > 0 {
                lemma_div_bound(-p0, c, k + 1);
                assert((k + 1) * c == k * c + c) by (nonlinear_arith);
            }
        }
    } else {
        let ghost mut k: int = 0;
        proof {
            lemma_div_bound(p0, c, 0);
        }
        while px >= pixels_per_whole
            invariant
                c == pixels_per_whole > 0,
                p0 >= 0,
                0 <= k <= p0 / c,
                w == w0 + k,
                w0 + p0 / c <= usize::MAX,
                px == p0 - k * c,
                px >= 0,
            decreases px,
        {
            proof {
                lemma_div_bound(p0, c, k + 1);
                assert((k + 1) * c == k * c + c) by (nonlinear_arith);
            }
            w = w + 1;
            px = px - pixels_per_whole;
            proof {
                k = k + 1;
            }
        }
        proof {
            vstd::arithmetic::div_mod::lemma_fundamental_div_mod_converse(p0, c, k, px as int);
        }
    }
    *whole = w;
    *pixel = px;
}

/// The absolute pixel position is kept by every sequence of scrolls: from
/// the origin, it ends at the sum of the deltas, whole cells never go below
/// 0, and the remainder is below one cell unless it lies before the data.
pub proof fn lemma_scroll_seq_position(cell: int, deltas: Seq<int>)
    requires
        cell > 0,
    ensures
        ({
            let r = scroll_seq(0, 0, cell, deltas);
            &&& r.0 >= 0
            &&& r.0 * cell + r.1 == sum_of(deltas)
            &&& r.1 >= 0 ==> r.1 < cell
            &&& (r.1 < 0 && r.0 > 0) ==> r.1 > -cell
        }),
    decreases deltas.len(),
{
    if deltas.len() > 0 {
        lemma_scroll_seq_position(cell, deltas.drop_last());
        let prev = scroll_seq(0, 0, cell, deltas.drop_last());
        lemma_scroll_step(prev.0, prev.1, cell, deltas.last());
    }
}

/// Scrolling from the origin by a sequence of deltas ends where one scroll
/// by their sum ends, unless the sequence stops partway into a cell with a
/// negative remainder (which a single scroll from the origin never leaves).
pub proof fn lemma_scroll_seq_as_one(cell: int, deltas: Seq<int>)
    requires
        cell > 0,
        !(scroll_seq(0, 0, cell, deltas).0 > 0 && scroll_seq(0, 0, cell, deltas).1 < 0),
    ensures
        scroll_seq(0, 0, cell, deltas) == scroll_result(0, 0, cell, sum_of(deltas)),
{
    lemma_scroll_seq_position(cell, deltas);
    let r = scroll_seq(0, 0, cell, deltas);
    let s = sum_of(deltas);
    if r.1 >= 0 {
        assert(r.0 * cell >= 0) by (nonlinear_arith)
            requires
                r.0 >= 0,
                cell > 0,
        ;
        assert(s == r.0 * cell + r.1);
        vstd::arithmetic::div_mod::lemma_fundamental_div_mod_converse(s, cell, r.0, r.1);
    } else {
        assert(r.0 == 0);
        assert(0 * cell == 0) by (nonlinear_arith);
        lemma_div_bound(-s, cell, 0);
    }
}

/// From the origin, forward scrolls never leave a negative remainder and
/// backward scrolls never leave whole cells.
proof fn lemma_scroll_seq_sign(cell: int, deltas: Seq<int>)
    requires
        cell > 0,
    ensures
        (forall|i: int| 0 <= i < deltas.len() ==> deltas[i] >= 0) ==> scroll_seq(
            0,
            0,
            cell,
            deltas,
        ).1 >= 0,
        (forall|i: int| 0 <= i < deltas.len() ==> deltas[i] <= 0) ==> scroll_seq(
            0,
            0,
            cell,
            deltas,
        ).0 == 0 && scroll_seq(0, 0, cell, deltas).1 <= 0,
    decreases deltas.len(),
{
    if deltas.len() > 0 {
        let rest = deltas.drop_last();
        assert forall|i: int| 0 <= i < rest.len() implies rest[i] == deltas[i] by {}
        lemma_scroll_seq_sign(cell, rest);
        let prev = scroll_seq(0, 0, cell, rest);
        lemma_scroll_seq_position(cell, rest);
        lemma_scroll_step(prev.0, prev.1, cell, deltas.last());
        if forall|i: int| 0 <= i < deltas.len() ==> deltas[i] >= 0 {
            assert(deltas.last() == deltas[deltas.len() - 1]);
            vstd::arithmetic::div_mod::lemma_mod_pos_bound(prev.1 + deltas.last(), cell);
        }
        if forall|i: int| 0 <= i < deltas.len() ==> deltas[i] <= 0 {
            assert(deltas.last() == deltas[deltas.len() - 1]);
            if prev.1 + deltas.last() >= 0 {
                assert(prev.1 + deltas.last() == 0);
                assert(0int / cell == 0);
                assert(0int % cell == 0);
            }
        }
    }
}

/// Scrolls that all go the same way, from the origin, end where one scroll
/// by their sum ends.
pub proof fn lemma_scroll_seq_same_sign(cell: int, deltas: Seq<int>)
    requires
        cell > 0,
        (forall|i: int| 0 <= i < deltas.len() ==> deltas[i] >= 0) || (forall|i: int|
            0 <= i < deltas.len() ==> deltas[i] <= 0),
    ensures
        scroll_seq(0, 0, cell, deltas) == scroll_result(0, 0, cell, sum_of(deltas)),
{
    lemma_scroll_seq_sign(cell, deltas);
    lemma_scroll_seq_as_one(cell, deltas);
}

} // verus!
