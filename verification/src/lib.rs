//! Small verified exercises: pairwise arithmetic, sign checks carried through
//! `Result`, a rectangle with exact area, and a module tree of named offices.

pub mod errors;
pub mod funcs;
pub mod geometry;
pub mod nation;
