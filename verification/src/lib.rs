//! Random picks of a map and of a weapon for a raid: the catalogs, the
//! extraction of weapon names from a wiki page's markup, and the state behind
//! the two buttons of the window.

pub mod text;
pub mod titles;
pub mod errors;
pub mod catalog;
pub mod maps;
pub mod weapons;
pub mod state;
