//! A declarative step graph: typed step records are validated, linked by name
//! into a graph, and walked from a start step until the walk ends or fails.

pub mod errors;
pub mod json;
pub mod machine;
pub mod models;
pub mod normalize;
pub mod serializer;
pub mod text;
pub mod utils;
pub mod validate;
