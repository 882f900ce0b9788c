//! Rectangular pixel grids and the pixel-level operations of the carving
//! core.
//!
//! A grid is a row-major `Vec<Vec<T>>`; its mathematical model, obtained
//! through [`grid_view`], is a `Seq<Seq<T>>`. Every operation of the
//! library demands a rectangular grid (all rows of one length) and rejects
//! empty ones at run time, as the error contracts state.

use vstd::prelude::*;

verus! {

/// A color pixel. The carving algorithm never interprets the channels;
/// their order is irrelevant to it.
#[derive(Clone, Copy, Debug, PartialEq, Eq, Structural)]
pub struct Rgb {
    pub r: u8,
    pub g: u8,
    pub b: u8,
}

/// The failures a grid operation can report.
#[derive(Clone, Copy, Debug, PartialEq, Eq, Structural)]
pub enum CarveError {
    /// A zero-height or zero-width grid was submitted.
    EmptyInput,
    /// Grids or a grid and a seam of inconsistent dimensions were combined.
    ShapeMismatch,
    /// Narrowing was requested on a grid already one column wide.
    OutOfRange,
}

/// The mathematical model of a grid: the sequence of its rows' contents.
pub open spec fn grid_view<T>(g: Seq<Vec<T>>) -> Seq<Seq<T>> {
    Seq::new(g.len(), |y: int| g[y]@)
}

/// Every row of the model has the length of the first one (vacuously true
/// of a grid with no rows).
pub open spec fn rectangular<T>(g: Seq<Seq<T>>) -> bool {
    forall|y: int| 0 <= y < g.len() ==> #[trigger] g[y].len() == g[0].len()
}

/// The model has at least one row and one column.
pub open spec fn nonempty<T>(g: Seq<Seq<T>>) -> bool {
    g.len() >= 1 && g[0].len() >= 1
}

/// A well-formed grid model: rectangular and nonempty.
pub open spec fn grid_wf<T>(g: Seq<Seq<T>>) -> bool {
    rectangular(g) && nonempty(g)
}

/// [`rectangular`], phrased directly over the rows of a `Vec` grid.
pub open spec fn grid_rect<T>(g: Seq<Vec<T>>) -> bool {
    forall|y: int| 0 <= y < g.len() ==> #[trigger] g[y]@.len() == g[0]@.len()
}

/// [`nonempty`], phrased directly over the rows of a `Vec` grid.
pub open spec fn grid_nonempty<T>(g: Seq<Vec<T>>) -> bool {
    g.len() >= 1 && g[0]@.len() >= 1
}

/// The `Vec`-level predicates agree with the predicates on the model.
pub proof fn lemma_grid_view_wf<T>(g: Seq<Vec<T>>)
    ensures
        grid_view(g).len() == g.len(),
        forall|y: int| 0 <= y < g.len() ==> #[trigger] grid_view(g)[y] == g[y]@,
        grid_rect(g) <==> rectangular(grid_view(g)),
        grid_nonempty(g) <==> nonempty(grid_view(g)),
{
    if grid_rect(g) {
        assert forall|y: int| 0 <= y < grid_view(g).len() implies #[trigger] grid_view(g)[y].len()
            == grid_view(g)[0].len() by {
            assert(g[y]@.len() == g[0]@.len());
        }
    }
    if rectangular(grid_view(g)) {
        assert forall|y: int| 0 <= y < g.len() implies #[trigger] g[y]@.len() == g[0]@.len() by {
            assert(grid_view(g)[y].len() == grid_view(g)[0].len());
        }
    }
}

/// The grayscale intensity of a color pixel: the floor of the mean of its
/// three channels.
pub open spec fn gray_of(p: Rgb) -> u8 {
    (((p.r as int) + (p.g as int) + (p.b as int)) / 3) as u8
}

/// Derives the grayscale tracking grid from a color grid, pixel by pixel.
pub fn to_grayscale(image: &Vec<Vec<Rgb>>) -> (r: Result<Vec<Vec<u8>>, CarveError>)
    requires
        grid_rect(image@),
    ensures
        r is Ok <==> grid_nonempty(image@),
        r is Err ==> r == Result::<Vec<Vec<u8>>, CarveError>::Err(CarveError::EmptyInput),
        r matches Ok(gray) ==> {
            &&& gray@.len() == image@.len()
            &&& forall|y: int| 0 <= y < gray@.len() ==> #[trigger] gray@[y]@.len() == image@[y]@.len()
            &&& forall|y: int, x: int|
                0 <= y < gray@.len() && 0 <= x < gray@[y]@.len()
                    ==> #[trigger] gray@[y]@[x] == gray_of(image@[y]@[x])
        },
{
    if image.len() == 0 || image[0].len() == 0 {
        return Err(CarveError::EmptyInput);
    }
    let h = image.len();
    let w = image[0].len();
    let mut gray: Vec<Vec<u8>> = Vec::new();
    for y in 0..h
        invariant
            h == image@.len(),
            w == image@[0]@.len(),
            grid_rect(image@),
            gray@.len() == y,
            forall|yy: int| 0 <= yy < y ==> #[trigger] gray@[yy]@.len() == w,
            forall|yy: int, x: int|
                0 <= yy < y && 0 <= x < w
                    ==> #[trigger] gray@[yy]@[x] == gray_of(image@[yy]@[x]),
    {
        let mut row: Vec<u8> = Vec::new();
        assert(image@[y as int]@.len() == w);
        for x in 0..w
            invariant
                h == image@.len(),
                w == image@[0]@.len(),
                y < h,
                image@[y as int]@.len() == w,
                row@.len() == x,
                forall|xx: int|
                    0 <= xx < x ==> #[trigger] row@[xx] == gray_of(image@[y as int]@[xx]),
        {
            let p = image[y][x];
            let sum: u16 = p.r as u16 + p.g as u16 + p.b as u16;
            let v: u8 = (sum / 3) as u8;
            assert(v == gray_of(image@[y as int]@[x as int]));
            row.push(v);
        }
        gray.push(row);
    }
    Ok(gray)
}

} // verus!
