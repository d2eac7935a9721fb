//! Board-state and render-synchronization core of a falling-block puzzle
//! game: a fixed-size logical grid of cells, a texture registry that maps
//! each cell state to a visual asset handle, a render tree of one placeholder
//! tile per cell, a redraw coordinator that keeps the placeholders consistent
//! with the grid, and the spawn/fall kinematics of the active piece.
//!
//! All continuous positions are held in millipixels (thousandths of a pixel)
//! so that the per-frame fall integration is exact integer arithmetic.

pub mod grid;
pub mod inputs;
pub mod render;
pub mod tetrino;
pub mod textures;
