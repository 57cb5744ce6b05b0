//! The logical core of a panel-swapping puzzle game: the panel grid with its
//! coordinate arithmetic, and the resolver that turns directional input into
//! movement of the controlled panel.

pub mod grid;
pub mod movement;
pub mod panel;
pub mod random;
