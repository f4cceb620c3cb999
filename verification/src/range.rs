//! The range of degrees whose entries are listed.
//!
//! A requested range is put in order and cut to at most fifty degrees past its
//! start, so that a listing has at most fifty-one rows.

use vstd::prelude::*;
use crate::table::{LookupTable, TrigResult, TABLE_SIZE};

verus! {

/// The most degrees that the end of a listed range lies past its start.
pub const MAX_SPAN: usize = 50;

/// One row of a listing: a whole degree and the table's entry for it.
#[derive(Clone, Copy, Debug, PartialEq, Eq, Structural)]
pub struct TableRow {
    pub degree: usize,
    pub values: TrigResult,
}

/// The lesser of two bounds.
pub open spec fn lower(start: int, end: int) -> int {
    if start > end {
        end
    } else {
        start
    }
}

/// The greater of two bounds.
pub open spec fn upper(start: int, end: int) -> int {
    if start > end {
        start
    } else {
        end
    }
}

/// A requested range with its bounds in order.
pub open spec fn ordered_range(start: int, end: int) -> (int, int) {
    (lower(start, end), upper(start, end))
}

/// A range cut to `MAX_SPAN` degrees past its start.
pub open spec fn clamped_range(start: int, end: int) -> (int, int) {
    if end - start > MAX_SPAN {
        (start, start + MAX_SPAN)
    } else {
        (start, end)
    }
}

/// A requested range, put in order and then cut to `MAX_SPAN` degrees past its
/// start.
pub open spec fn normalized_range(start: int, end: int) -> (int, int) {
    clamped_range(ordered_range(start, end).0, ordered_range(start, end).1)
}

/// The rows of a listing from `low` to `high`, both included.
pub open spec fn rows_of(table: LookupTable, low: int, high: int) -> Seq<TableRow> {
    Seq::new(
        (high - low + 1) as nat,
        |i: int| TableRow { degree: (low + i) as usize, values: table.result(low + i) },
    )
}

/// A normalized range starts at the lesser bound, is in order, ends at the
/// greater bound unless that lies more than `MAX_SPAN` past the start, and
/// otherwise exactly `MAX_SPAN` past it.
pub proof fn lemma_normalized_range(start: int, end: int)
    ensures
        normalized_range(start, end).0 == lower(start, end),
        normalized_range(start, end).0 <= normalized_range(start, end).1,
        normalized_range(start, end).1 <= upper(start, end),
        normalized_range(start, end).1 - normalized_range(start, end).0 <= MAX_SPAN,
        upper(start, end) - lower(start, end) <= MAX_SPAN ==> normalized_range(start, end).1
            == upper(start, end),
        upper(start, end) - lower(start, end) > MAX_SPAN ==> normalized_range(start, end).1
            == lower(start, end) + MAX_SPAN,
{
}

/// The order in which the two bounds are given does not matter.
pub proof fn lemma_normalized_range_symmetric(start: int, end: int)
    ensures
        normalized_range(start, end) == normalized_range(end, start),
{
}

/// Normalizing a normalized range changes nothing.
pub proof fn lemma_normalized_range_idempotent(start: int, end: int)
    ensures
        normalized_range(normalized_range(start, end).0, normalized_range(start, end).1)
            == normalized_range(start, end),
{
}

/// Puts the bounds of a requested range in order.
pub fn order_range(start: usize, end: usize) -> (range: (usize, usize))
    ensures
        range.0 == ordered_range(start as int, end as int).0,
        range.1 == ordered_range(start as int, end as int).1,
{
    if start > end {
        (end, start)
    } else {
        (start, end)
    }
}

/// Cuts a range to `MAX_SPAN` degrees past its start.
pub fn clamp_range(start: usize, end: usize) -> (range: (usize, usize))
    requires
        start <= end,
    ensures
        range.0 == clamped_range(start as int, end as int).0,
        range.1 == clamped_range(start as int, end as int).1,
{
    if end - start > MAX_SPAN {
        (start, start + MAX_SPAN)
    } else {
        (start, end)
    }
}

/// Puts a requested range in order and cuts it to `MAX_SPAN` degrees past its
/// start.
pub fn normalize_range(start: usize, end: usize) -> (range: (usize, usize))
    ensures
        range.0 == normalized_range(start as int, end as int).0,
        range.1 == normalized_range(start as int, end as int).1,
{
    let (low, high) = order_range(start, end);
    clamp_range(low, high)
}

/// The rows of the listing for a requested range: one row for each degree of
/// the normalized range, in rising order.
pub fn table_rows(table: &LookupTable, start: usize, end: usize) -> (rows: Vec<TableRow>)
    requires
        normalized_range(start as int, end as int).1 < TABLE_SIZE,
    ensures
        rows@ == rows_of(
            *table,
            normalized_range(start as int, end as int).0,
            normalized_range(start as int, end as int).1,
        ),
{
    let (low, high) = normalize_range(start, end);
    let mut rows: Vec<TableRow> = Vec::new();
    let mut degree: usize = low;
    while degree <= high
        invariant
            low <= degree <= high + 1,
            high < TABLE_SIZE,
            rows@ == rows_of(*table, low as int, degree - 1),
        decreases high + 1 - degree,
    {
        rows.push(TableRow { degree, values: table.entry_at(degree) });
        degree = degree + 1;
    }
    rows
}

} // verus!
