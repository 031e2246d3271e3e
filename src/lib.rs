//! Backend logic of a small desktop editor: text heuristics and the
//! decisions and messages around its filesystem commands.

pub mod analysis;
pub mod files;
pub mod listing;
pub mod notify;
pub mod text;
