//! The services that resolve a user's input to one snippet.

pub mod services;
