//! The terminal interface: its messages, its navigation state and its views.

use vstd::prelude::*;

use crate::tui::controller::navigation::Transition;

pub mod controller;
pub mod views;

verus! {

/// A message to the control loop, which takes them one at a time.
#[derive(Clone, Debug, PartialEq, Eq)]
pub enum Event {
    /// The user asked for a step of navigation.
    Navigate(Transition),
    /// A background worker fetched the price of ether, as display text.
    EthPriceUpdate(String),
}

} // verus!
