//! The seam remover.
//!
//! [`cut_seam`] excises one cell per row from a grid of any payload type,
//! narrowing it by exactly one column while preserving the order of all
//! other cells; [`mark_seam`] paints the seam instead, leaving the width
//! unchanged. Neither mutates its input: both return a fresh grid.
//!
//! [`cut_seam`] indexes its seam top-row-first (`seam[y]` is the column cut
//! from row `y`); the locator produces seams bottom-row-first, so callers
//! reverse them first. [`mark_seam`] takes the locator's order directly and
//! pairs entry `k` with row `H - 1 - k` itself.

use vstd::prelude::*;

use crate::grid::CarveError;
use crate::grid::Rgb;
use crate::grid::grid_nonempty;
use crate::grid::grid_rect;

verus! {

/// The seam has one entry per row of the grid and every entry is a valid
/// column index.
pub open spec fn seam_fits<T>(g: Seq<Vec<T>>, s: Seq<usize>) -> bool {
    &&& s.len() == g.len()
    &&& forall|k: int| 0 <= k < s.len() ==> #[trigger] s[k] < g[0]@.len()
}

/// Row conservation: after removing one cell of a row, the multiset of the
/// retained values equals the original row's values minus exactly the one
/// value at the removed index.
pub proof fn lemma_row_conservation<T>(row: Seq<T>, i: int)
    requires
        0 <= i < row.len(),
    ensures
        row.remove(i).to_multiset() == row.to_multiset().remove(row[i]),
{
    vstd::seq_lib::to_multiset_remove(row, i);
}

/// Excises `seam` from `image`: row `y` of the result is row `y` of the
/// input with the cell at column `seam[y]` removed, so the result is
/// exactly one column narrower. The input is left untouched.
pub fn cut_seam<T: Copy>(image: &Vec<Vec<T>>, seam: &Vec<usize>) -> (r: Result<
    Vec<Vec<T>>,
    CarveError,
>)
    requires
        grid_rect(image@),
    ensures
        r is Ok <==> grid_nonempty(image@) && seam_fits(image@, seam@) && image@[0]@.len() >= 2,
        !grid_nonempty(image@) ==> r == Result::<Vec<Vec<T>>, CarveError>::Err(
            CarveError::EmptyInput,
        ),
        grid_nonempty(image@) && !seam_fits(image@, seam@) ==> r == Result::<
            Vec<Vec<T>>,
            CarveError,
        >::Err(CarveError::ShapeMismatch),
        grid_nonempty(image@) && seam_fits(image@, seam@) && image@[0]@.len() < 2 ==> r == Result::<
            Vec<Vec<T>>,
            CarveError,
        >::Err(CarveError::OutOfRange),
        r matches Ok(out) ==> {
            &&& out@.len() == image@.len()
            &&& forall|y: int|
                0 <= y < out@.len() ==> #[trigger] out@[y]@.len() == image@[y]@.len() - 1
            &&& forall|y: int|
                0 <= y < out@.len() ==> #[trigger] out@[y]@ == image@[y]@.remove(seam@[y] as int)
        },
{
    if image.len() == 0 || image[0].len() == 0 {
        return Err(CarveError::EmptyInput);
    }
    let h = image.len();
    let w = image[0].len();
    if seam.len() != h {
        return Err(CarveError::ShapeMismatch);
    }
    for y in 0..h
        invariant
            h == image@.len(),
            w == image@[0]@.len(),
            grid_nonempty(image@),
            seam@.len() == h,
            forall|k: int| 0 <= k < y ==> #[trigger] seam@[k] < w,
    {
        if seam[y] >= w {
            return Err(CarveError::ShapeMismatch);
        }
    }
    if w < 2 {
        return Err(CarveError::OutOfRange);
    }

    let mut output: Vec<Vec<T>> = Vec::new();
    for y in 0..h
        invariant
            h == image@.len(),
            w == image@[0]@.len(),
            w >= 2,
            grid_rect(image@),
            seam@.len() == h,
            forall|k: int| 0 <= k < h ==> #[trigger] seam@[k] < w,
            output@.len() == y,
            forall|yy: int| 0 <= yy < y ==> #[trigger] output@[yy]@.len() == w - 1,
            forall|yy: int|
                0 <= yy < y ==> #[trigger] output@[yy]@ == image@[yy]@.remove(seam@[yy] as int),
    {
        let s = seam[y];
        let source = &image[y];
        assert(source@.len() == w);
        let mut row: Vec<T> = Vec::new();
        // All cells before the seam column, in order.
        for x in 0..s
            invariant
                s < w == source@.len(),
                row@ == source@.subrange(0, x as int),
        {
            row.push(source[x]);
            assert(row@ =~= source@.subrange(0, x as int + 1));
        }
        // All cells past the seam column, shifted left by one.
        let mut x = s + 1;
        while x < w
            invariant
                s < w == source@.len(),
                s + 1 <= x <= w,
                row@ == source@.subrange(0, s as int) + source@.subrange(s as int + 1, x as int),
            decreases w - x,
        {
            row.push(source[x]);
            assert(row@ =~= source@.subrange(0, s as int) + source@.subrange(
                s as int + 1,
                x as int + 1,
            ));
            x += 1;
        }
        assert(row@ =~= source@.remove(s as int));
        output.push(row);
    }
    Ok(output)
}

/// Paints `seam` into a color grid without narrowing it: the pixel of row
/// `y` at the seam's column for that row becomes the marker color. The
/// seam is taken in the locator's bottom-row-first order, so row `y` is
/// marked at column `seam[H - 1 - y]`. The input is left untouched.
pub fn mark_seam(image: &Vec<Vec<Rgb>>, seam: &Vec<usize>) -> (r: Result<Vec<Vec<Rgb>>, CarveError>)
    requires
        grid_rect(image@),
    ensures
        r is Ok <==> grid_nonempty(image@) && seam_fits(image@, seam@),
        !grid_nonempty(image@) ==> r == Result::<Vec<Vec<Rgb>>, CarveError>::Err(
            CarveError::EmptyInput,
        ),
        grid_nonempty(image@) && !seam_fits(image@, seam@) ==> r == Result::<
            Vec<Vec<Rgb>>,
            CarveError,
        >::Err(CarveError::ShapeMismatch),
        r matches Ok(out) ==> {
            &&& out@.len() == image@.len()
            &&& forall|y: int|
                0 <= y < out@.len() ==> #[trigger] out@[y]@ == image@[y]@.update(
                    seam@[image@.len() - 1 - y] as int,
                    seam_mark(),
                )
        },
{
    if image.len() == 0 || image[0].len() == 0 {
        return Err(CarveError::EmptyInput);
    }
    let h = image.len();
    let w = image[0].len();
    if seam.len() != h {
        return Err(CarveError::ShapeMismatch);
    }
    for y in 0..h
        invariant
            h == image@.len(),
            w == image@[0]@.len(),
            grid_nonempty(image@),
            seam@.len() == h,
            forall|k: int| 0 <= k < y ==> #[trigger] seam@[k] < w,
    {
        if seam[y] >= w {
            return Err(CarveError::ShapeMismatch);
        }
    }

    let mut output: Vec<Vec<Rgb>> = Vec::new();
    for y in 0..h
        invariant
            h == image@.len(),
            w == image@[0]@.len(),
            w >= 1,
            grid_rect(image@),
            seam@.len() == h,
            forall|k: int| 0 <= k < h ==> #[trigger] seam@[k] < w,
            output@.len() == y,
            forall|yy: int|
                0 <= yy < y ==> #[trigger] output@[yy]@ == image@[yy]@.update(
                    seam@[h - 1 - yy] as int,
                    seam_mark(),
                ),
    {
        let s = seam[h - 1 - y];
        let source = &image[y];
        assert(source@.len() == w);
        let mut row: Vec<Rgb> = Vec::new();
        for x in 0..w
            invariant
                s < w == source@.len(),
                row@.len() == x,
                forall|xx: int|
                    0 <= xx < x ==> #[trigger] row@[xx] == if xx == s as int {
                        seam_mark()
                    } else {
                        source@[xx]
                    },
        {
            if x == s {
                row.push(Rgb { r: 255, g: 0, b: 0 });
            } else {
                row.push(source[x]);
            }
        }
        assert(row@ =~= source@.update(s as int, seam_mark()));
        output.push(row);
    }
    Ok(output)
}

/// The color painted onto marked seam pixels.
pub open spec fn seam_mark() -> Rgb {
    Rgb { r: 255, g: 0, b: 0 }
}

} // verus!
