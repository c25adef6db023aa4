//! Helpers shared by the parsers and the resolution engine.

pub mod path_utils;
pub mod text;
