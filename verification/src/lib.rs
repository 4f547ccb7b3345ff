pub mod types;
pub mod registry;
pub mod laws;
