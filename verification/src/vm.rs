pub mod classloader;
pub mod convert;
pub mod ops;
pub mod stack;
pub mod thread;
pub mod types;
