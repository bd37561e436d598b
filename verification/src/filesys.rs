pub mod file;
pub mod fs;
pub mod osfs;
pub mod store;
