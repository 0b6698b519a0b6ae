//! Conway's Game of Life on a bounded rectangular grid.
//!
//! The crate holds the grid engine only: the cells, the neighbour count, the
//! transition from one generation to the next, and the rules by which mouse
//! input edits the grid and starts or pauses the simulation. Opening a window,
//! polling for input and drawing are left to the program that uses it.
//!
//! The grid is a bounded rectangle that does not wrap around: a cell on an
//! edge has fewer neighbours than a cell inside. Row 0 and column 0 are a
//! border that is never counted: a live cell there is nobody's neighbour,
//! though it counts its own neighbours and follows the rule like any other.
//! `Board::valid_coords` states this, and `laws` says from where on the
//! count is the plain number of live cells around.
//!
//! Positions on the screen are whole screen pixels. A cell covers a square
//! of `PIXEL_SIZE` by `PIXEL_SIZE` of them, its top and left edges included
//! and its bottom and right edges not.

pub mod config;
pub mod board;
pub mod coord;
pub mod engine;
pub mod game;
pub mod laws;
pub mod pixel;
pub mod random;
