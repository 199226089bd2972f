pub mod farm;
pub mod laws;
