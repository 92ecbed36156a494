//! Geometry of the list: which slice of the filtered rows is on screen, and
//! where the scrollbar thumb stands.
use vstd::arithmetic::div_mod::{lemma_fundamental_div_mod, lemma_fundamental_div_mod_converse};
use vstd::arithmetic::mul::lemma_mul_upper_bound;
use vstd::prelude::*;

verus! {

/// How far below the top the selected row is kept once scrolling begins.
pub open spec fn bias(rows: int) -> int {
    rows * 2 / 3
}

pub open spec fn min(a: int, b: int) -> int {
    if a <= b {
        a
    } else {
        b
    }
}

/// `a - b`, or zero where that would be negative.
pub open spec fn sat_sub(a: int, b: int) -> int {
    if a >= b {
        a - b
    } else {
        0
    }
}

/// The visible window `[start, end)` into a filtered sequence of
/// `filtered_len` rows, on a screen of `rows` rows, with the selection at
/// `scroll_pos`.
///
/// The window opens `bias` rows above the selection and is pulled back where
/// it would run short at the end of the list; while the selection is still
/// above `bias`, the first screenful is shown from the top.
pub open spec fn window_spec(scroll_pos: int, filtered_len: int, rows: int) -> (int, int) {
    if scroll_pos < bias(rows) {
        (0, min(rows, filtered_len))
    } else {
        let start = sat_sub(scroll_pos, bias(rows));
        let end = min(start + rows, filtered_len);
        if end == filtered_len && start + rows > end {
            (sat_sub(end, rows), end)
        } else {
            (start, end)
        }
    }
}

/// The 1-based row of the scrollbar thumb: the selection's share of the way
/// down the list, `scroll_pos / (filtered_len - 1)`, scaled to the
/// `rows - 1` steps of the track and rounded half up. Where every row fits
/// on screen it is the first row.
pub open spec fn thumb_row_spec(scroll_pos: int, filtered_len: int, rows: int) -> int {
    if filtered_len <= rows {
        1
    } else {
        (2 * scroll_pos * (rows - 1) + (filtered_len - 1)) / (2 * (filtered_len - 1)) + 1
    }
}

/// `rows * 2 / 3`, computed without overflow.
fn bias_of(rows: usize) -> (b: usize)
    ensures
        b == bias(rows as int),
        b <= rows,
{
    let b = rows / 3 * 2 + rows % 3 * 2 / 3;
    assert(rows == 3 * (rows / 3) + rows % 3);
    assert(b == bias(rows as int)) by (nonlinear_arith)
        requires
            rows == 3 * (rows / 3) + rows % 3,
            0 <= rows % 3 < 3,
            b == rows / 3 * 2 + rows % 3 * 2 / 3,
    ;
    b
}

/// The visible window `[start, end)` into the filtered rows; see
/// [`window_spec`].
pub fn window(scroll_pos: usize, filtered_len: usize, rows: usize) -> (r: (usize, usize))
    ensures
        (r.0 as int, r.1 as int) == window_spec(scroll_pos as int, filtered_len as int, rows as int),
{
    let b = bias_of(rows);
    if scroll_pos < b {
        let end = if rows <= filtered_len {
            rows
        } else {
            filtered_len
        };
        return (0, end);
    }
    let start = scroll_pos - b;
    // `min(start + rows, filtered_len)`, and whether `start + rows` passes it.
    let (end, overshoots) = if start >= filtered_len {
        (filtered_len, start > filtered_len || rows > 0)
    } else if filtered_len - start <= rows {
        (filtered_len, filtered_len - start < rows)
    } else {
        (start + rows, false)
    };
    if end == filtered_len && overshoots {
        let pulled = if end >= rows {
            end - rows
        } else {
            0
        };
        (pulled, end)
    } else {
        (start, end)
    }
}

/// The 1-based row of the scrollbar thumb on a track of `rows` rows; see
/// [`thumb_row_spec`].
pub fn thumb_row(scroll_pos: usize, filtered_len: usize, rows: usize) -> (r: usize)
    requires
        rows >= 1,
        filtered_len <= rows || scroll_pos < filtered_len,
    ensures
        r == thumb_row_spec(scroll_pos as int, filtered_len as int, rows as int),
        1 <= r <= rows,
{
    if filtered_len <= rows {
        return 1;
    }
    let a = scroll_pos as u128;
    let b = (rows - 1) as u128;
    let c = (filtered_len - 1) as u128;
    proof {
        lemma_mul_upper_bound(a as int, c as int, b as int, c as int);
        lemma_mul_upper_bound(b as int, c as int, c as int, c as int);
        assert(c * c <= 0xffff_ffff_ffff_ffffu128 * 0xffff_ffff_ffff_ffffu128) by (nonlinear_arith)
            requires
                c <= 0xffff_ffff_ffff_ffffu128,
        ;
    }
    let p = a * b;
    let q = p / c;
    let m = p % c;
    let up: u128 = if 2 * m >= c {
        1
    } else {
        0
    };
    proof {
        let x: int = 2 * scroll_pos * (rows - 1) + (filtered_len - 1);
        let d: int = 2 * (filtered_len - 1);
        lemma_fundamental_div_mod(p as int, c as int);
        assert(p == q * c + m) by (nonlinear_arith)
            requires
                p == c * q + m,
        ;
        assert(x == 2 * p + c) by (nonlinear_arith)
            requires
                x == 2 * scroll_pos * (rows - 1) + (filtered_len - 1),
                p == a * b,
                a == scroll_pos,
                b == rows - 1,
                c == filtered_len - 1,
        ;
        assert(x == (q + up) * d + (2 * m + c - up * d)) by (nonlinear_arith)
            requires
                x == 2 * p + c,
                p == q * c + m,
                d == 2 * c,
        ;
        lemma_fundamental_div_mod_converse(x, d, (q + up) as int, 2 * m + c - up * d);
        // The thumb never passes the last row: `x < (b + 1) * d`.
        assert(x < (b + 1) * d) by (nonlinear_arith)
            requires
                x == 2 * p + c,
                p == a * b,
                a <= c,
                c > 0,
                d == 2 * c,
        ;
        assert(q + up < b + 1) by (nonlinear_arith)
            requires
                x == (q + up) * d + (2 * m + c - up * d),
                0 <= 2 * m + c - up * d,
                x < (b + 1) * d,
                d > 0,
        ;
    }
    (q + up + 1) as usize
}

/// The window never leaves the list and never outgrows the screen; it holds
/// the selection whenever there is a row and room to show it; and where
/// every row fits on the screen, it is the whole list.
pub proof fn lemma_window_contains(scroll_pos: int, filtered_len: int, rows: int)
    requires
        0 <= scroll_pos,
        scroll_pos < filtered_len || scroll_pos == 0,
        0 <= filtered_len,
        0 <= rows,
    ensures
        ({
            let (start, end) = window_spec(scroll_pos, filtered_len, rows);
            &&& 0 <= start <= scroll_pos
            &&& start <= end <= filtered_len
            &&& end - start <= rows
            &&& (filtered_len > 0 && rows > 0 ==> scroll_pos < end)
            &&& (filtered_len <= rows ==> start == 0 && end == filtered_len)
        }),
{
    assert(0 <= bias(rows) <= rows) by (nonlinear_arith)
        requires
            rows >= 0,
    ;
    assert(rows > 0 ==> bias(rows) < rows) by (nonlinear_arith)
        requires
            rows >= 0,
    ;
    let (start, end) = window_spec(scroll_pos, filtered_len, rows);
    assert(0 <= start <= scroll_pos);
    assert(start <= end <= filtered_len);
    assert(end - start <= rows);
    assert(filtered_len > 0 && rows > 0 ==> scroll_pos < end);
    assert(filtered_len <= rows ==> start == 0 && end == filtered_len);
}

/// The thumb sits on the first row with the first item selected and on the
/// last row with the last item selected, whenever the list outgrows the
/// screen.
pub proof fn lemma_thumb_row_ends(filtered_len: int, rows: int)
    requires
        filtered_len > rows >= 1,
    ensures
        thumb_row_spec(0, filtered_len, rows) == 1,
        thumb_row_spec(filtered_len - 1, filtered_len, rows) == rows,
{
    let c = filtered_len - 1;
    assert(2 * 0 * (rows - 1) + c == 0 * (2 * c) + c) by (nonlinear_arith);
    lemma_fundamental_div_mod_converse(c, 2 * c, 0, c);
    assert(2 * (filtered_len - 1) * (rows - 1) + c == (rows - 1) * (2 * c) + c) by (nonlinear_arith)
        requires
            c == filtered_len - 1,
    ;
    lemma_fundamental_div_mod_converse(
        2 * (filtered_len - 1) * (rows - 1) + c,
        2 * c,
        rows - 1,
        c,
    );
}

} // verus!
