//! Generic code over mutation policies (plain values and `std::cell` wrappers)
//! and over the two kinds of reference access (shared and exclusive).
pub mod in_ex_mut;
pub mod laws;
pub mod refs;
mod cells;
mod seal;
