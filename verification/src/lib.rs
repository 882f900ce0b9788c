//! Content-aware image narrowing (seam carving).
//!
//! The core is a pure, verified pipeline over rectangular pixel grids:
//! a cumulative minimal-energy field is built from a per-pixel importance
//! signal, a connected vertical seam of locally minimal cost is traced
//! through it, and that seam is excised (or marked) in the pixel grids.
//! Image decoding, the gradient operator that produces the importance
//! signal, and display are external collaborators; they live outside this
//! library and hand it plain grids.

pub mod carve;
pub mod energy;
pub mod grid;
pub mod remove;
pub mod seam;

pub use carve::CarveMode;
pub use carve::CarvingState;
pub use carve::carve_step;
pub use energy::generate_energies;
pub use remove::cut_seam;
pub use remove::mark_seam;
pub use seam::generate_seam;
pub use grid::CarveError;
pub use grid::Rgb;
pub use grid::to_grayscale;
