pub mod err;
pub mod flags;
pub mod grammar;
pub mod laws;
pub mod names;
pub mod parse;
pub mod pool;
pub mod trunc;
pub mod types;
pub mod reader;
