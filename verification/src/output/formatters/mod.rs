//! Report formatters.
pub mod coloured_text;
pub mod json;
pub mod text;
