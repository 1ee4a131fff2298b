//! Reports drawn anew from stored results.

pub mod bars;
pub mod page;
pub mod stored;
pub mod tables;
