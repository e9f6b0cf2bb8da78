//! The body of the screen: on the left what the current page shows and the
//! text field, on the right the status.
//!
//! Nothing is drawn here. A frame says where each pane lies and what it
//! holds; drawing it is left to the terminal backend.

use vstd::prelude::*;

use ratatui::layout::{Constraint, Layout, Rect};

use crate::tui::controller::navigation::{Navigation, Page};

verus! {

/// The share of the width that the left pane asks for, in percent.
pub const LEFT_PERCENT: u16 = 70;

/// The share of the width that the right pane asks for, in percent.
pub const RIGHT_PERCENT: u16 = 30;

/// A rectangle of terminal cells.
#[derive(Clone, Copy, Debug, PartialEq, Eq, Structural)]
pub struct Area {
    pub x: u16,
    pub y: u16,
    pub width: u16,
    pub height: u16,
}

/// The line that a pane's border is drawn with.
#[derive(Clone, Copy, Debug, PartialEq, Eq, Structural)]
pub enum Border {
    Plain,
    Rounded,
    Double,
    Thick,
}

/// What the left pane holds.
#[derive(Clone, Debug, PartialEq, Eq)]
pub struct Left {
    pub page: Page,
    pub text_input: String,
}

/// What the right pane holds.
#[derive(Clone, Debug, PartialEq, Eq)]
pub struct Right {
    pub eth_price: String,
}

/// One drawing of the body.
#[derive(Clone, Debug, PartialEq, Eq)]
pub struct RenderFrame {
    pub left_area: Area,
    pub left: Left,
    pub right_area: Area,
    pub right: Right,
    pub border: Border,
}

/// What the right pane shows while no price has arrived.
pub open spec fn price_placeholder() -> Seq<char> {
    "Loading..."@
}

/// What the right pane shows.
pub open spec fn price_text(eth_price: Option<String>) -> Seq<char> {
    match eth_price {
        Some(price) => price@,
        None => price_placeholder(),
    }
}

/// The two areas into which the layout engine splits `area` from left to
/// right, for two panes that ask for `first` and `second` percent of the
/// width.
pub uninterp spec fn horizontal_split(area: Area, first: u16, second: u16) -> (Area, Area);

/// `Layout::horizontal` of two `Constraint::Percentage`, then
/// `Layout::areas`: the two areas that the engine's constraint solver
/// settles on. Where the two shares fit into the width together, the two
/// percentages can both be met, and they outrank every constraint that
/// stands against them; that pins each edge, so the solver has one answer,
/// which depends on the area and the two percentages alone. Each of the two
/// areas spans the rows of the area that was split; nothing is claimed here
/// of the columns.
#[verifier::external_body]
fn split_horizontal(area: Area, first: u16, second: u16) -> (parts: (Area, Area))
    requires
        first + second <= 100,
    ensures
        parts == horizontal_split(area, first, second),
        parts.0.y == area.y && parts.0.height == area.height,
        parts.1.y == area.y && parts.1.height == area.height,
{
    let rect = Rect { x: area.x, y: area.y, width: area.width, height: area.height };
    let constraints = [Constraint::Percentage(first), Constraint::Percentage(second)];
    let [a, b] = Layout::horizontal(constraints).areas(rect);
    (
        Area { x: a.x, y: a.y, width: a.width, height: a.height },
        Area { x: b.x, y: b.y, width: b.width, height: b.height },
    )
}

/// What a drawing of the body reads: the navigation state, and the price of
/// ether if it has arrived.
#[derive(Clone, Copy, Debug)]
pub struct Body<'a> {
    pub eth_price: &'a Option<String>,
    pub navigation: &'a Navigation,
}

impl<'a> Body<'a> {
    /// `frame` shows this body in the two given areas.
    pub open spec fn shown_in(&self, frame: RenderFrame, left_area: Area, right_area: Area) -> bool {
        &&& frame.left_area == left_area
        &&& frame.right_area == right_area
        &&& frame.border == Border::Plain
        &&& frame.left.page == self.navigation@.last().page
        &&& frame.left.text_input@ == self.navigation@.last().input
        &&& frame.right.eth_price@ == price_text(*self.eth_price)
    }

    /// The frame for two areas that are given: the current page and its
    /// text field on the left, the price on the right or, while there is
    /// none, the placeholder; plain borders.
    pub fn compose(&self, left_area: Area, right_area: Area) -> (frame: RenderFrame)
        ensures
            self.shown_in(frame, left_area, right_area),
    {
        let eth_price = match self.eth_price {
            Some(price) => price.clone(),
            None => String::from_str("Loading..."),
        };
        RenderFrame {
            left_area,
            left: Left {
                page: *self.navigation.current_page(),
                text_input: String::from_str(self.navigation.input()),
            },
            right_area,
            right: Right { eth_price },
            border: Border::Plain,
        }
    }

    /// The frame for `area`, which the layout engine splits between the two
    /// panes, 70 to 30.
    pub fn frame(&self, area: Area) -> (frame: RenderFrame)
        ensures
            self.shown_in(
                frame,
                horizontal_split(area, LEFT_PERCENT, RIGHT_PERCENT).0,
                horizontal_split(area, LEFT_PERCENT, RIGHT_PERCENT).1,
            ),
            frame.left_area.y == area.y && frame.left_area.height == area.height,
            frame.right_area.y == area.y && frame.right_area.height == area.height,
    {
        let (left_area, right_area) = split_horizontal(area, LEFT_PERCENT, RIGHT_PERCENT);
        self.compose(left_area, right_area)
    }
}

} // verus!
