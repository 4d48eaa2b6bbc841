//! Result documents and a model of the collection that holds them.

pub mod collection;
pub mod document;
