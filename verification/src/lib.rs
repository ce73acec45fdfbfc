//! In-place image blurring on a single-channel byte plane.
//!
//! Two separable two-pass kernels operate on a `Plane`: an exact box blur
//! (truncated averaging windows near the edges) and an approximate stack
//! blur (triangular weights, edge samples clamped, fixed-point reciprocal
//! tables in place of per-pixel division).

pub mod box_blur;
pub mod laws;
pub mod model;
pub mod plane;
pub mod stack_blur;
pub mod stack_sums;
pub mod sums;
pub mod tables;

pub use box_blur::box_blur;
pub use plane::get_max_size;
pub use plane::handle_panic;
pub use plane::Plane;
pub use plane::MAX_SIZE;
pub use stack_blur::stack_blur;
