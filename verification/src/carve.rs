//! The carving driver.
//!
//! One carving run holds a [`CarvingState`]: the color grid being produced
//! and a grayscale tracking grid from which the energy signal is
//! recomputed. The importance signal itself comes from an external
//! gradient collaborator, so the driver exposes one verified step,
//! [`carve_step`]: given the current state and the signal for its tracking
//! grid, it builds the cumulative cost field, locates the seam, and either
//! removes it from the color grid or marks it there, always removing it
//! from the tracking grid. The surrounding glue repeats the step — obtain
//! a signal, apply [`carve_step`] — once per requested seam, stopping with
//! the reported error if the grid cannot be narrowed further.

use vstd::prelude::*;

use crate::energy::cost_grid;
use crate::energy::generate_energies;
use crate::grid::CarveError;
use crate::grid::Rgb;
use crate::grid::gray_of;
use crate::grid::grid_nonempty;
use crate::grid::grid_rect;
use crate::grid::grid_view;
use crate::grid::to_grayscale;
use crate::remove::cut_seam;
use crate::remove::mark_seam;
use crate::remove::seam_mark;
use crate::seam::generate_seam;
use crate::seam::seam_entry;

verus! {

/// What a step does to the color grid: physically narrow it, or only paint
/// the located seam for visualization.
#[derive(Clone, Copy, Debug, PartialEq, Eq, Structural)]
pub enum CarveMode {
    /// Remove the seam: the color grid loses one column.
    Remove,
    /// Paint the seam: the color grid keeps its width.
    Mark,
}

/// The column of the seam entry `k` located for the signal `sig` (entry
/// `k` belongs to row `sig.len() - 1 - k`).
pub open spec fn seam_col(sig: Seq<Seq<u8>>, k: int) -> int {
    seam_entry(cost_grid(sig), k)
}

/// The grids of one carving run. The grayscale grid tracks the content of
/// the color grid and always narrows, so energy is recomputed over the
/// correctly narrowed content; in marking mode the color grid keeps its
/// width, so the grayscale grid may be the narrower of the two.
pub struct CarvingState {
    pub color: Vec<Vec<Rgb>>,
    pub gray: Vec<Vec<u8>>,
}

impl CarvingState {
    /// Both grids are well-formed, of equal height, and the tracking grid
    /// is at most as wide as the color grid.
    pub open spec fn wf(&self) -> bool {
        &&& grid_rect(self.color@)
        &&& grid_rect(self.gray@)
        &&& grid_nonempty(self.color@)
        &&& grid_nonempty(self.gray@)
        &&& self.gray@.len() == self.color@.len()
        &&& self.gray@[0]@.len() <= self.color@[0]@.len()
    }

    /// Starts a run: derives the grayscale tracking grid from the color
    /// grid.
    pub fn new(color: Vec<Vec<Rgb>>) -> (r: Result<CarvingState, CarveError>)
        requires
            grid_rect(color@),
        ensures
            r is Ok <==> grid_nonempty(color@),
            r is Err ==> r == Result::<CarvingState, CarveError>::Err(CarveError::EmptyInput),
            r matches Ok(st) ==> {
                &&& st.wf()
                &&& st.color == color
                &&& st.gray@.len() == color@.len()
                &&& st.gray@[0]@.len() == color@[0]@.len()
                &&& forall|y: int, x: int|
                    0 <= y < st.gray@.len() && 0 <= x < st.gray@[y]@.len()
                        ==> #[trigger] st.gray@[y]@[x] == gray_of(color@[y]@[x])
            },
    {
        let gray = match to_grayscale(&color) {
            Ok(g) => g,
            Err(e) => {
                return Err(e);
            },
        };
        Ok(CarvingState { color, gray })
    }
}

/// `v` written back to front.
fn reversed(v: &Vec<usize>) -> (r: Vec<usize>)
    ensures
        r@.len() == v@.len(),
        forall|i: int| 0 <= i < v@.len() ==> #[trigger] r@[i] == v@[v@.len() - 1 - i],
{
    let n = v.len();
    let mut r: Vec<usize> = Vec::new();
    for k in 0..n
        invariant
            n == v@.len(),
            r@.len() == k,
            forall|j: int| 0 <= j < k ==> #[trigger] r@[j] == v@[n - 1 - j],
    {
        r.push(v[n - 1 - k]);
    }
    r
}

/// One carving iteration: build the cumulative cost field of `signal`,
/// locate the seam, remove or mark it in the color grid per `mode`, and
/// remove it from the grayscale tracking grid unconditionally.
///
/// `signal` is the importance signal for the current tracking grid and
/// must have its shape. A tracking grid already one column wide cannot be
/// narrowed further; the step reports that instead of producing an empty
/// grid. Row `y` of either grid is changed at column `seam_col` of entry
/// `H - 1 - y` — the locator orders entries bottom row first.
pub fn carve_step(state: CarvingState, signal: &Vec<Vec<u8>>, mode: CarveMode) -> (r: Result<
    CarvingState,
    CarveError,
>)
    requires
        state.wf(),
        grid_rect(signal@),
    ensures
        r is Ok <==> (signal@.len() == state.gray@.len() && signal@[0]@.len()
            == state.gray@[0]@.len() && state.gray@[0]@.len() >= 2),
        (signal@.len() != state.gray@.len() || signal@[0]@.len() != state.gray@[0]@.len()) ==> r
            == Result::<CarvingState, CarveError>::Err(CarveError::ShapeMismatch),
        (signal@.len() == state.gray@.len() && signal@[0]@.len() == state.gray@[0]@.len()
            && state.gray@[0]@.len() < 2) ==> r == Result::<CarvingState, CarveError>::Err(
            CarveError::OutOfRange,
        ),
        r matches Ok(st2) ==> {
            let sig = grid_view(signal@);
            let h = state.gray@.len() as int;
            &&& st2.wf()
            &&& st2.gray@.len() == h
            &&& st2.gray@[0]@.len() == state.gray@[0]@.len() - 1
            &&& forall|y: int|
                0 <= y < h ==> #[trigger] st2.gray@[y]@ == state.gray@[y]@.remove(
                    seam_col(sig, h - 1 - y),
                )
            &&& mode == CarveMode::Remove ==> {
                &&& st2.color@.len() == h
                &&& st2.color@[0]@.len() == state.color@[0]@.len() - 1
                &&& forall|y: int|
                    0 <= y < h ==> #[trigger] st2.color@[y]@ == state.color@[y]@.remove(
                        seam_col(sig, h - 1 - y),
                    )
            }
            &&& mode == CarveMode::Mark ==> {
                &&& st2.color@.len() == h
                &&& st2.color@[0]@.len() == state.color@[0]@.len()
                &&& forall|y: int|
                    0 <= y < h ==> #[trigger] st2.color@[y]@ == state.color@[y]@.update(
                        seam_col(sig, h - 1 - y),
                        seam_mark(),
                    )
            }
        },
{
    let h = state.gray.len();
    let gw = state.gray[0].len();
    if signal.len() != h {
        return Err(CarveError::ShapeMismatch);
    }
    if signal[0].len() != gw {
        return Err(CarveError::ShapeMismatch);
    }
    if gw < 2 {
        return Err(CarveError::OutOfRange);
    }
    let ghost sig = grid_view(signal@);

    let energies = match generate_energies(signal) {
        Ok(e) => e,
        Err(e) => {
            return Err(e);
        },
    };
    proof {
        assert forall|y: int| 0 <= y < energies@.len() implies #[trigger] energies@[y]@.len()
            == energies@[0]@.len() by {
            assert(signal@[y]@.len() == signal@[0]@.len());
        }
        crate::grid::lemma_grid_view_wf(signal@);
        crate::grid::lemma_grid_view_wf(energies@);
        assert(grid_view(energies@) =~~= cost_grid(sig));
    }
    let seam = match generate_seam(&energies) {
        Ok(s) => s,
        Err(e) => {
            return Err(e);
        },
    };
    let rev = reversed(&seam);
    assert(rev@.len() == state.color@.len());
    assert forall|k: int| 0 <= k < rev@.len() implies #[trigger] rev@[k]
        < state.color@[0]@.len() by {
        assert(seam@[rev@.len() - 1 - k] < energies@[0]@.len());
    }

    let new_color = match mode {
        CarveMode::Remove => match cut_seam(&state.color, &rev) {
            Ok(c) => c,
            Err(e) => {
                return Err(e);
            },
        },
        CarveMode::Mark => match mark_seam(&state.color, &seam) {
            Ok(c) => c,
            Err(e) => {
                return Err(e);
            },
        },
    };
    let new_gray = match cut_seam(&state.gray, &rev) {
        Ok(g) => g,
        Err(e) => {
            return Err(e);
        },
    };
    Ok(CarvingState { color: new_color, gray: new_gray })
}

} // verus!
