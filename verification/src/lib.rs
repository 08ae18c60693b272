//! Reading of genome dumps left behind by an evolutionary optimizer, and the
//! choice of the fittest organism among them.

pub mod number;
pub mod words;
pub mod token;
pub mod records;
pub mod genome;
pub mod builder;
pub mod select;
pub mod command;
pub mod scan;
pub mod laws;
