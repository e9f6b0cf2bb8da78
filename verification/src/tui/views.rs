//! What is drawn from the state.

pub mod body;
