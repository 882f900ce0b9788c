//! The seam locator.
//!
//! A seam is traced backwards through a cumulative cost grid: the bottom
//! row's minimal-cost column seeds it, and each row above is searched only
//! in the window of columns at distance at most one from the previous
//! choice, clamped to the grid, so the path stays connected and every
//! column — the rightmost included — remains reachable. Ties always fall
//! to the leftmost candidate. The produced sequence is ordered
//! bottom-row-first: entry `k` belongs to row `H - 1 - k`; consumers that
//! index rows from the top must reverse it first.

use vstd::prelude::*;

use crate::grid::CarveError;
use crate::grid::grid_nonempty;
use crate::grid::grid_rect;
use crate::grid::grid_view;
use crate::grid::grid_wf;

verus! {

/// The leftmost index of a minimal value of `row` within `[lo, hi)`.
pub open spec fn argmin_from(row: Seq<usize>, lo: int, hi: int) -> int
    decreases hi - lo,
{
    if lo + 1 >= hi {
        lo
    } else {
        let rest = argmin_from(row, lo + 1, hi);
        if row[rest] < row[lo] {
            rest
        } else {
            lo
        }
    }
}

/// `argmin_from` lies in its window, points at a minimal value, and is the
/// leftmost index doing so.
pub proof fn lemma_argmin_props(row: Seq<usize>, lo: int, hi: int)
    requires
        0 <= lo < hi <= row.len(),
    ensures
        lo <= argmin_from(row, lo, hi) < hi,
        forall|j: int| lo <= j < hi ==> row[argmin_from(row, lo, hi)] <= #[trigger] row[j],
        forall|j: int| lo <= j < argmin_from(row, lo, hi) ==> row[argmin_from(row, lo, hi)] < #[trigger] row[j],
    decreases hi - lo,
{
    if lo + 1 < hi {
        lemma_argmin_props(row, lo + 1, hi);
    }
}

/// Widening the window by one column on the right moves the argmin there
/// exactly when that column's value is strictly smaller.
pub proof fn lemma_argmin_extend(row: Seq<usize>, lo: int, hi: int)
    requires
        0 <= lo < hi,
        hi + 1 <= row.len(),
    ensures
        argmin_from(row, lo, hi + 1) == if row[hi] < row[argmin_from(row, lo, hi)] {
            hi
        } else {
            argmin_from(row, lo, hi)
        },
    decreases hi - lo,
{
    if lo + 1 >= hi {
        assert(argmin_from(row, lo, hi) == lo);
        assert(argmin_from(row, lo + 1, hi + 1) == hi);
    } else {
        lemma_argmin_extend(row, lo + 1, hi);
        lemma_argmin_props(row, lo + 1, hi);
        lemma_argmin_props(row, lo + 1, hi + 1);
        lemma_argmin_props(row, lo, hi);
        assert(argmin_from(row, lo, hi + 1) == if row[argmin_from(row, lo + 1, hi + 1)]
            < row[lo] {
            argmin_from(row, lo + 1, hi + 1)
        } else {
            lo
        });
    }
}

/// The column chosen for entry `k` of the seam through the cost grid `c`
/// (entry `k` belongs to row `c.len() - 1 - k`).
pub open spec fn seam_entry(c: Seq<Seq<usize>>, k: int) -> int
    decreases k,
{
    let h = c.len() as int;
    let w = c[0].len() as int;
    if k <= 0 {
        argmin_from(c[h - 1], 0, w)
    } else {
        let p = seam_entry(c, k - 1);
        argmin_from(c[h - 1 - k], vstd::math::max(p - 1, 0), vstd::math::min(p + 2, w))
    }
}

/// Every seam entry is a valid column index.
pub proof fn lemma_seam_entry_bounds(c: Seq<Seq<usize>>, k: int)
    requires
        grid_wf(c),
        0 <= k < c.len(),
    ensures
        0 <= seam_entry(c, k) < c[0].len(),
    decreases k,
{
    let h = c.len() as int;
    let w = c[0].len() as int;
    if k == 0 {
        assert(c[h - 1].len() == w);
        lemma_argmin_props(c[h - 1], 0, w);
    } else {
        lemma_seam_entry_bounds(c, k - 1);
        let p = seam_entry(c, k - 1);
        assert(c[h - 1 - k].len() == w);
        lemma_argmin_props(c[h - 1 - k], vstd::math::max(p - 1, 0), vstd::math::min(p + 2, w));
    }
}

/// Connectivity: entries of adjacent rows differ by at most one column.
pub proof fn lemma_seam_connected(c: Seq<Seq<usize>>, k: int)
    requires
        grid_wf(c),
        1 <= k < c.len(),
    ensures
        seam_entry(c, k - 1) - 1 <= seam_entry(c, k) <= seam_entry(c, k - 1) + 1,
{
    let h = c.len() as int;
    let w = c[0].len() as int;
    lemma_seam_entry_bounds(c, k - 1);
    let p = seam_entry(c, k - 1);
    assert(c[h - 1 - k].len() == w);
    lemma_argmin_props(c[h - 1 - k], vstd::math::max(p - 1, 0), vstd::math::min(p + 2, w));
}

/// The leftmost index of a minimal value of `row` within `[lo, hi)`,
/// found by a left-to-right scan with a strict comparison.
fn row_argmin(row: &Vec<usize>, lo: usize, hi: usize) -> (idx: usize)
    requires
        lo < hi,
        hi <= row@.len(),
    ensures
        idx as int == argmin_from(row@, lo as int, hi as int),
{
    let mut idx = lo;
    let mut x = lo + 1;
    while x < hi
        invariant
            lo < hi <= row@.len(),
            lo < x <= hi,
            idx as int == argmin_from(row@, lo as int, x as int),
        decreases hi - x,
    {
        proof {
            lemma_argmin_props(row@, lo as int, x as int);
            lemma_argmin_extend(row@, lo as int, x as int);
        }
        if row[x] < row[idx] {
            idx = x;
        }
        x += 1;
    }
    idx
}

/// Traces the seam of minimal cumulative cost through `energy_map`,
/// bottom row first.
///
/// Entry `0` is the leftmost minimal-cost column of the bottom row; each
/// following entry is the leftmost minimal-cost column of the row above,
/// searched within one column of the previous entry.
pub fn generate_seam(energy_map: &Vec<Vec<usize>>) -> (r: Result<Vec<usize>, CarveError>)
    requires
        grid_rect(energy_map@),
    ensures
        r is Ok <==> grid_nonempty(energy_map@),
        r is Err ==> r == Result::<Vec<usize>, CarveError>::Err(CarveError::EmptyInput),
        r matches Ok(seam) ==> {
            &&& seam@.len() == energy_map@.len()
            &&& forall|k: int|
                0 <= k < seam@.len()
                    ==> #[trigger] seam@[k] as int == seam_entry(grid_view(energy_map@), k)
            &&& forall|k: int| 0 <= k < seam@.len() ==> #[trigger] seam@[k] < energy_map@[0]@.len()
            &&& forall|k: int|
                1 <= k < seam@.len()
                    ==> seam@[k - 1] as int - 1 <= #[trigger] seam@[k] as int <= seam@[k - 1] as int
                    + 1
        },
{
    if energy_map.len() == 0 || energy_map[0].len() == 0 {
        return Err(CarveError::EmptyInput);
    }
    let ghost c = grid_view(energy_map@);
    let h = energy_map.len();
    let w = energy_map[0].len();
    proof {
        crate::grid::lemma_grid_view_wf(energy_map@);
    }
    let mut minimum_indices: Vec<usize> = Vec::new();

    // Seed with the minimal column of the bottom row.
    assert(energy_map@[h - 1]@.len() == w);
    let first = row_argmin(&energy_map[h - 1], 0, w);
    proof {
        lemma_seam_entry_bounds(c, 0);
    }
    minimum_indices.push(first);

    for k in 1..h
        invariant
            h == energy_map@.len(),
            w == energy_map@[0]@.len(),
            w >= 1,
            grid_rect(energy_map@),
            c == grid_view(energy_map@),
            grid_wf(c),
            minimum_indices@.len() == k,
            forall|j: int|
                0 <= j < k ==> #[trigger] minimum_indices@[j] as int == seam_entry(c, j),
            forall|j: int| 0 <= j < k ==> #[trigger] minimum_indices@[j] < w,
    {
        let prev = minimum_indices[k - 1];
        let lo: usize = if prev == 0 {
            0
        } else {
            prev - 1
        };
        let hi: usize = if w - prev <= 2 {
            w
        } else {
            prev + 2
        };
        assert(lo as int == vstd::math::max(prev as int - 1, 0));
        assert(hi as int == vstd::math::min(prev as int + 2, w as int));
        assert(energy_map@[h - 1 - k]@.len() == w);
        let idx = row_argmin(&energy_map[h - 1 - k], lo, hi);
        proof {
            lemma_seam_entry_bounds(c, k as int);
        }
        minimum_indices.push(idx);
    }

    proof {
        assert forall|k: int| 1 <= k < minimum_indices@.len() implies minimum_indices@[k - 1] as int
            - 1 <= #[trigger] minimum_indices@[k] as int <= minimum_indices@[k - 1] as int + 1 by {
            lemma_seam_connected(c, k);
        }
    }
    Ok(minimum_indices)
}

} // verus!
