//! A small task tracker: an ordered collection of tasks and the four
//! operations on it (add, list, complete, delete), each with a contract
//! over a mathematical model of the collection.

pub mod command;
pub mod laws;
pub mod model;
pub mod ops;
pub mod store;
pub mod task;
pub mod text;
