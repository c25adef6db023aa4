//! What the library knows of template rendering: its errors and the
//! interfaces that an engine and a shell executor offer.

pub mod errors;
pub mod interface;
