//! What the library takes on trust from the crates it calls: their types,
//! names for what they hold and return, and one wrapper for each function
//! called, with a contract that says what the function's source shows.
//! Nothing here is proved.

pub mod arrays;
pub mod cells;
