//! What the library's operations promise to their callers, stated on the calls themselves: each
//! law speaks of the arguments that calls were made with and of the values that they returned.

pub mod filters;
pub mod insertions;
pub mod numerals;
pub mod reading;
pub mod searches;
pub mod statements;
pub mod stores;
