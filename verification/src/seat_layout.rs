//! Seat grid indexing for auditorium layouts.
//!
//! `m` is the number of seats per row and `row_count` the number of rows. The
//! 0-based linear index `idx` runs over `0..row_count * m`; it flattens as
//! `idx = i * m + j` and unflattens as `i = idx / m`, `j = idx % m`. Public seat ids
//! are the 1-based labels `s1` … `sN`, and API rows and columns are 1-based.

use vstd::prelude::*;
use crate::text::{decimal, push_char, push_usize, lemma_decimal_injective};

verus! {

/// Grid cell of a linear index: `(idx / m, idx % m)`, or `(0, 0)` when `m == 0`.
pub open spec fn spec_from_flat_idx(idx: int, seats_per_row: int) -> (int, int) {
    if seats_per_row == 0 {
        (0, 0)
    } else {
        (idx / seats_per_row, idx % seats_per_row)
    }
}

/// Linear index of a grid cell: `i * m + j`.
pub open spec fn spec_flat_idx(row_index: int, col_index: int, seats_per_row: int) -> int {
    row_index * seats_per_row + col_index
}

/// 0-based grid cell `(row_index, col_index)` from linear index and seats-per-row `m`.
pub fn from_flat_idx(idx: usize, seats_per_row: usize) -> (r: (usize, usize))
    ensures
        (r.0 as int, r.1 as int) == spec_from_flat_idx(idx as int, seats_per_row as int),
{
    if seats_per_row == 0 {
        return (0, 0);
    }
    (idx / seats_per_row, idx % seats_per_row)
}

/// Linear index from 0-based row/column indices and `m` seats per row.
pub fn flat_idx(row_index: usize, col_index: usize, seats_per_row: usize) -> (r: usize)
    requires
        spec_flat_idx(row_index as int, col_index as int, seats_per_row as int) <= usize::MAX,
    ensures
        r as int == spec_flat_idx(row_index as int, col_index as int, seats_per_row as int),
{
    proof {
        vstd::arithmetic::mul::lemma_mul_nonnegative(row_index as int, seats_per_row as int);
    }
    row_index * seats_per_row + col_index
}

/// Unflattening a flattened cell gives the cell back.
pub proof fn lemma_unflatten_flatten(row_index: int, col_index: int, seats_per_row: int)
    requires
        0 <= row_index,
        0 <= col_index < seats_per_row,
    ensures
        spec_from_flat_idx(spec_flat_idx(row_index, col_index, seats_per_row), seats_per_row)
            == (row_index, col_index),
{
    vstd::arithmetic::div_mod::lemma_fundamental_div_mod_converse(
        row_index * seats_per_row + col_index,
        seats_per_row,
        row_index,
        col_index,
    );
}

/// Flattening an unflattened index gives the index back.
pub proof fn lemma_flatten_unflatten(idx: int, seats_per_row: int)
    requires
        0 <= idx,
        0 < seats_per_row,
    ensures
        spec_flat_idx(
            spec_from_flat_idx(idx, seats_per_row).0,
            spec_from_flat_idx(idx, seats_per_row).1,
            seats_per_row,
        ) == idx,
        0 <= spec_from_flat_idx(idx, seats_per_row).1 < seats_per_row,
        0 <= spec_from_flat_idx(idx, seats_per_row).0,
{
    vstd::arithmetic::div_mod::lemma_fundamental_div_mod(idx, seats_per_row);
    vstd::arithmetic::div_mod::lemma_div_pos_is_pos(idx, seats_per_row);
    vstd::arithmetic::mul::lemma_mul_is_commutative(seats_per_row, idx / seats_per_row);
}

/// One seat cell in row-major order for a rectangular auditorium.
#[derive(Debug, Clone, PartialEq, Eq)]
pub struct LayoutSeat {
    /// 0-based index in `[0, row_count * seats_per_row)`.
    pub flat_idx: usize,
    /// Public API id: `s1` … `sN`.
    pub seat_uuid: String,
    /// 1-based row (auditorium front to back).
    pub row: i64,
    /// 1-based column within the row.
    pub col: i64,
}

/// Public seat id of linear index `idx`: `s{idx + 1}`.
pub open spec fn seat_label(idx: int) -> Seq<char> {
    seq!['s'] + decimal((idx + 1) as nat)
}

/// `n.max(0) as usize`: the row or column count used for a layout dimension.
pub open spec fn layout_dim(n: i64) -> int {
    if n <= 0 {
        0
    } else {
        (n as usize) as int
    }
}

/// Number of seats in a layout: `rows * m`, saturating at `usize::MAX`.
pub open spec fn layout_total(row_count: i64, seats_per_row: i64) -> int {
    let p = layout_dim(row_count) * layout_dim(seats_per_row);
    if p > usize::MAX {
        usize::MAX as int
    } else {
        p
    }
}

/// `seat` is the layout cell at linear index `idx` with `m` seats per row.
pub open spec fn is_layout_seat(seat: LayoutSeat, idx: int, seats_per_row: int) -> bool {
    &&& seat.flat_idx == idx
    &&& seat.seat_uuid@ == seat_label(idx)
    &&& seat.row == idx / seats_per_row + 1
    &&& seat.col == idx % seats_per_row + 1
}

fn layout_seat(idx: usize, seats_per_row: usize) -> (r: LayoutSeat)
    requires
        seats_per_row > 0,
        idx < usize::MAX,
        idx / seats_per_row < i64::MAX,
        seats_per_row <= i64::MAX,
    ensures
        is_layout_seat(r, idx as int, seats_per_row as int),
{
    let (i, j) = from_flat_idx(idx, seats_per_row);
    let mut label = String::new();
    push_char(&mut label, 's');
    push_usize(&mut label, idx + 1);
    assert(label@ =~= seat_label(idx as int));
    LayoutSeat { flat_idx: idx, seat_uuid: label, row: (i + 1) as i64, col: (j + 1) as i64 }
}

/// Every seat in layout order (row-major); empty if `row_count` or `seats_per_row` is
/// non-positive.
pub fn iter_layout_seats(row_count: i64, seats_per_row: i64) -> (r: Vec<LayoutSeat>)
    ensures
        r@.len() == layout_total(row_count, seats_per_row),
        forall|k: int|
            0 <= k < r@.len() ==> is_layout_seat(
                #[trigger] r@[k],
                k,
                layout_dim(seats_per_row),
            ),
{
    let rows: usize = if row_count <= 0 { 0 } else { #[verifier::truncate] (row_count as usize) };
    let m: usize = if seats_per_row <= 0 { 0 } else { #[verifier::truncate] (seats_per_row as usize) };
    let total: usize = match rows.checked_mul(m) {
        Some(t) => t,
        None => usize::MAX,
    };
    proof {
        vstd::arithmetic::mul::lemma_mul_nonnegative(rows as int, m as int);
    }
    assert(total as int == layout_total(row_count, seats_per_row));
    let mut out: Vec<LayoutSeat> = Vec::new();
    let mut idx: usize = 0;
    while idx < total
        invariant
            idx <= total,
            total as int == layout_total(row_count, seats_per_row),
            rows as int == layout_dim(row_count),
            m as int == layout_dim(seats_per_row),
            out@.len() == idx,
            forall|k: int| 0 <= k < idx ==> is_layout_seat(#[trigger] out@[k], k, m as int),
        decreases total - idx,
    {
        proof {
            assert(m > 0) by {
                if m == 0 {
                    vstd::arithmetic::mul::lemma_mul_basics(rows as int);
                }
            }
            lemma_index_row_in_range(idx as int, rows as int, m as int);
        }
        let seat = layout_seat(idx, m);
        out.push(seat);
        idx = idx + 1;
    }
    out
}

proof fn lemma_index_row_in_range(idx: int, rows: int, m: int)
    requires
        0 <= idx < rows * m,
        m > 0,
    ensures
        idx / m < rows,
{
    vstd::arithmetic::div_mod::lemma_fundamental_div_mod(idx, m);
    if idx / m >= rows {
        vstd::arithmetic::mul::lemma_mul_inequality(rows, idx / m, m);
        vstd::arithmetic::mul::lemma_mul_is_commutative(m, idx / m);
    }
}

/// Two distinct positions of a layout have distinct `(row, col)` cells and distinct
/// seat ids.
pub proof fn lemma_layout_seats_distinct(a: LayoutSeat, ka: int, b: LayoutSeat, kb: int, m: int)
    requires
        m > 0,
        0 <= ka,
        0 <= kb,
        ka != kb,
        is_layout_seat(a, ka, m),
        is_layout_seat(b, kb, m),
    ensures
        (a.row, a.col) != (b.row, b.col),
        a.seat_uuid@ != b.seat_uuid@,
{
    lemma_flatten_unflatten(ka, m);
    lemma_flatten_unflatten(kb, m);
    if a.seat_uuid@ == b.seat_uuid@ {
        assert(a.seat_uuid@.subrange(1, a.seat_uuid@.len() as int) =~= decimal((ka + 1) as nat));
        assert(b.seat_uuid@.subrange(1, b.seat_uuid@.len() as int) =~= decimal((kb + 1) as nat));
        lemma_decimal_injective((ka + 1) as nat, (kb + 1) as nat);
    }
}

/// Every 1-based cell `(row, col)` of a layout whose seat count does not saturate
/// is produced, at linear index `(row - 1) * m + (col - 1)`.
pub proof fn lemma_layout_covers_cell(row_count: i64, seats_per_row: i64, row: int, col: int)
    requires
        layout_dim(row_count) * layout_dim(seats_per_row) <= usize::MAX,
        1 <= row <= layout_dim(row_count),
        1 <= col <= layout_dim(seats_per_row),
    ensures
        ({
            let m = layout_dim(seats_per_row);
            let k = spec_flat_idx(row - 1, col - 1, m);
            &&& 0 <= k < layout_total(row_count, seats_per_row)
            &&& k / m + 1 == row
            &&& k % m + 1 == col
        }),
{
    let m = layout_dim(seats_per_row);
    let rows = layout_dim(row_count);
    lemma_unflatten_flatten(row - 1, col - 1, m);
    assert((row - 1) * m + (col - 1) < rows * m) by (nonlinear_arith)
        requires
            1 <= row <= rows,
            1 <= col <= m,
    ;
    assert(0 <= (row - 1) * m) by (nonlinear_arith)
        requires
            1 <= row,
            0 <= m,
    ;
}

} // verus!
