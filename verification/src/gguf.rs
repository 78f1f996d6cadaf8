pub mod format;
pub mod reader;
pub mod laws;
