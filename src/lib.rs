//! Strong Kleene three-valued logic.

pub mod laws;
pub mod skleene;

pub use skleene::SKleene;
