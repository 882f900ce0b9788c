//! The cumulative minimal-energy field.
//!
//! From a per-pixel importance signal, a single top-to-bottom
//! dynamic-programming pass yields, per cell, the least total signal cost
//! of any connected vertical path from the top row down to that cell.
//! Additions that would not fit the cost type are clamped to its maximum
//! rather than wrapping.

use vstd::prelude::*;

use crate::grid::CarveError;
use crate::grid::grid_nonempty;
use crate::grid::grid_rect;
use crate::grid::grid_view;
use crate::grid::grid_wf;

verus! {

/// Addition on cost values, clamped to the greatest representable cost.
pub open spec fn sat_add(a: int, b: int) -> int {
    if a + b > usize::MAX as int {
        usize::MAX as int
    } else {
        a + b
    }
}

/// The least total signal cost of a connected vertical path from the top
/// row of `s` down to cell `(y, x)`.
///
/// The top row is its own base case. Below it, a cell's cost is its own
/// signal plus the least cost among its upward neighbors: the cells of the
/// row above whose column differs by at most one, intersected with the
/// grid. A single-column grid leaves only the cell straight above.
pub open spec fn cost_cell(s: Seq<Seq<u8>>, y: int, x: int) -> int
    decreases y,
{
    if y <= 0 {
        s[0][x] as int
    } else {
        let w = s[0].len() as int;
        let above = if w == 1 {
            cost_cell(s, y - 1, x)
        } else if x == 0 {
            vstd::math::min(cost_cell(s, y - 1, x), cost_cell(s, y - 1, x + 1))
        } else if x == w - 1 {
            vstd::math::min(cost_cell(s, y - 1, x - 1), cost_cell(s, y - 1, x))
        } else {
            vstd::math::min(
                cost_cell(s, y - 1, x - 1),
                vstd::math::min(cost_cell(s, y - 1, x), cost_cell(s, y - 1, x + 1)),
            )
        };
        sat_add(s[y][x] as int, above)
    }
}

/// The whole cumulative cost grid of a signal, cell by cell.
pub open spec fn cost_grid(s: Seq<Seq<u8>>) -> Seq<Seq<usize>> {
    Seq::new(s.len(), |y: int| Seq::new(s[0].len(), |x: int| cost_cell(s, y, x) as usize))
}

/// The top row of the cost field equals the signal: a path ending in the
/// top row consists of that one cell alone.
pub proof fn lemma_cost_base(s: Seq<Seq<u8>>, x: int)
    ensures
        cost_cell(s, 0, x) == s[0][x] as int,
{
}

/// Every cost is a representable, non-negative value.
pub proof fn lemma_cost_in_range(s: Seq<Seq<u8>>, y: int, x: int)
    requires
        grid_wf(s),
        0 <= y < s.len(),
        0 <= x < s[0].len(),
    ensures
        0 <= cost_cell(s, y, x) <= usize::MAX as int,
    decreases y,
{
    if y > 0 {
        let w = s[0].len() as int;
        if w > 1 {
            if x > 0 {
                lemma_cost_in_range(s, y - 1, x - 1);
            }
            if x < w - 1 {
                lemma_cost_in_range(s, y - 1, x + 1);
            }
        }
        lemma_cost_in_range(s, y - 1, x);
    }
}

/// The cost of a cell never falls below its own signal: all contributions
/// accumulated from the rows above are non-negative, and clamping can only
/// land on the greatest representable value, which is no smaller.
pub proof fn lemma_cost_at_least_signal(s: Seq<Seq<u8>>, y: int, x: int)
    requires
        grid_wf(s),
        0 <= y < s.len(),
        0 <= x < s[0].len(),
    ensures
        cost_cell(s, y, x) >= s[y][x] as int,
{
    if y > 0 {
        let w = s[0].len() as int;
        if w > 1 {
            if x > 0 {
                lemma_cost_in_range(s, y - 1, x - 1);
            }
            if x < w - 1 {
                lemma_cost_in_range(s, y - 1, x + 1);
            }
        }
        lemma_cost_in_range(s, y - 1, x);
    }
}

/// Builds the cumulative cost grid of `input_matrix` by one
/// dynamic-programming pass: the top row is copied, and each later row is
/// computed from the row immediately above it.
pub fn generate_energies(input_matrix: &Vec<Vec<u8>>) -> (r: Result<Vec<Vec<usize>>, CarveError>)
    requires
        grid_rect(input_matrix@),
    ensures
        r is Ok <==> grid_nonempty(input_matrix@),
        r is Err ==> r == Result::<Vec<Vec<usize>>, CarveError>::Err(CarveError::EmptyInput),
        r matches Ok(out) ==> {
            &&& out@.len() == input_matrix@.len()
            &&& forall|y: int|
                0 <= y < out@.len() ==> #[trigger] out@[y]@.len() == input_matrix@[y]@.len()
            &&& forall|y: int, x: int|
                0 <= y < out@.len() && 0 <= x < out@[y]@.len()
                    ==> #[trigger] out@[y]@[x] as int == cost_cell(grid_view(input_matrix@), y, x)
        },
{
    if input_matrix.len() == 0 || input_matrix[0].len() == 0 {
        return Err(CarveError::EmptyInput);
    }
    let ghost v = grid_view(input_matrix@);
    let h = input_matrix.len();
    let w = input_matrix[0].len();
    proof {
        crate::grid::lemma_grid_view_wf(input_matrix@);
    }
    let mut energy_map: Vec<Vec<usize>> = Vec::new();

    // The first row has no cells above it: copy the signal.
    let mut first: Vec<usize> = Vec::new();
    for x in 0..w
        invariant
            w == input_matrix@[0]@.len(),
            input_matrix@.len() >= 1,
            first@.len() == x,
            v == grid_view(input_matrix@),
            forall|xx: int| 0 <= xx < x ==> #[trigger] first@[xx] as int == cost_cell(v, 0, xx),
    {
        let val = input_matrix[0][x] as usize;
        assert(val as int == cost_cell(v, 0, x as int));
        first.push(val);
    }
    energy_map.push(first);

    for y in 1..h
        invariant
            h == input_matrix@.len(),
            w == input_matrix@[0]@.len(),
            w >= 1,
            grid_rect(input_matrix@),
            v == grid_view(input_matrix@),
            energy_map@.len() == y,
            forall|yy: int| 0 <= yy < y ==> #[trigger] energy_map@[yy]@.len() == w,
            forall|yy: int, x: int|
                0 <= yy < y && 0 <= x < w
                    ==> #[trigger] energy_map@[yy]@[x] as int == cost_cell(v, yy, x),
    {
        let mut row: Vec<usize> = Vec::new();
        assert(input_matrix@[y as int]@.len() == w);
        for x in 0..w
            invariant
                h == input_matrix@.len(),
                w == input_matrix@[0]@.len(),
                w >= 1,
                1 <= y < h,
                input_matrix@[y as int]@.len() == w,
                v == grid_view(input_matrix@),
                energy_map@.len() == y,
                forall|yy: int| 0 <= yy < y ==> #[trigger] energy_map@[yy]@.len() == w,
                forall|yy: int, xx: int|
                    0 <= yy < y && 0 <= xx < w
                        ==> #[trigger] energy_map@[yy]@[xx] as int == cost_cell(v, yy, xx),
                row@.len() == x,
                forall|xx: int|
                    0 <= xx < x ==> #[trigger] row@[xx] as int == cost_cell(v, y as int, xx),
        {
            let pixel_value = input_matrix[y][x] as usize;
            let prev = &energy_map[y - 1];
            // The upward neighbor set of x, clamped to the grid: a lone
            // column keeps only the cell straight above, the edges keep
            // two candidates, interior columns all three.
            let above: usize = if w == 1 {
                prev[x]
            } else if x == 0 {
                let a = prev[x];
                let b = prev[x + 1];
                if a <= b {
                    a
                } else {
                    b
                }
            } else if x == w - 1 {
                let a = prev[x - 1];
                let b = prev[x];
                if a <= b {
                    a
                } else {
                    b
                }
            } else {
                let a = prev[x - 1];
                let b = prev[x];
                let c = prev[x + 1];
                let bc = if b <= c {
                    b
                } else {
                    c
                };
                if a <= bc {
                    a
                } else {
                    bc
                }
            };
            let energy_val = pixel_value.saturating_add(above);
            assert(energy_val as int == cost_cell(v, y as int, x as int));
            row.push(energy_val);
        }
        energy_map.push(row);
    }
    Ok(energy_map)
}

} // verus!
