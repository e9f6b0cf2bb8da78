//! Error taxonomy and navigation state for a terminal wallet manager.

pub mod collaborators;
pub mod error;
pub mod presenter;
pub mod tui;
