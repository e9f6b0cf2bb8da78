//! What the control loop decides, one message or one failure at a time. The
//! loop itself, which waits for messages and draws, is not here.

use vstd::prelude::*;

use crate::error::{FmtError, WalletError};
use crate::presenter::is_report_of;
use crate::tui::controller::navigation::{popped, step, Navigation};
use crate::tui::Event;

pub mod navigation;

verus! {

/// What was done about an operation that failed.
#[derive(Clone, Debug, PartialEq, Eq)]
pub enum Recovery {
    /// The user had called the operation off: the page was left.
    WentBack,
    /// The page stays, and this report is to be shown on it.
    Report(String),
}

/// Takes one message. A step of navigation changes the pages and leaves the
/// price; a price takes the place of the one before and leaves the pages.
pub fn handle(navigation: &mut Navigation, eth_price: &mut Option<String>, event: Event)
    ensures
        event matches Event::Navigate(transition) ==> final(navigation)@ == step(
            old(navigation)@,
            transition,
        ) && *final(eth_price) == *old(eth_price),
        event matches Event::EthPriceUpdate(price) ==> final(navigation)@ == old(navigation)@
            && *final(eth_price) == Some(price),
{
    match event {
        Event::Navigate(transition) => navigation.apply(transition),
        Event::EthPriceUpdate(price) => {
            *eth_price = Some(price);
        },
    }
}

/// Settles the failure of the operation `id`. An abort by the user is no
/// fault: it leads one page back, as far as there is one. Every other
/// failure leaves the pages as they are and is reported.
pub fn recover(navigation: &mut Navigation, id: &str, error: &WalletError) -> (recovery: Recovery)
    ensures
        error is Abort ==> recovery is WentBack && final(navigation)@ == popped(old(navigation)@),
        !(error is Abort) ==> final(navigation)@ == old(navigation)@ && (recovery matches Recovery::Report(
            text,
        ) && is_report_of(text@, id@, error.connect_failure())),
{
    match error {
        WalletError::Abort(_) => {
            navigation.pop();
            Recovery::WentBack
        },
        _ => Recovery::Report(error.fmt_err(id)),
    }
}

} // verus!
