//! The decisions around reading files and around file metadata.

pub mod read_chars;
pub mod read_lines;
pub mod set_blocking;
pub mod unix_functions;
