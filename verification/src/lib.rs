pub mod collector;
pub mod door;
pub mod filename;
pub mod sanitize;
