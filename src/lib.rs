//! A Game of Life engine: a fixed-size board of cells stored row by row in one
//! contiguous buffer, point and rectangle edits, and the one-step transition,
//! each with a verified contract over a mathematical model of the board.

pub mod grid;
pub mod editor;
pub mod theorems;
