//! What the configuration editor decides: texts, bindings being composed, and edits of profiles.

pub mod composer;
pub mod edits;
pub mod keys;
pub mod labels;
pub mod macros;
pub mod message;
pub mod mirror;
pub mod panels;
pub mod rules;
pub mod screen;
pub mod session;
pub mod text;
