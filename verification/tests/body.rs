use wallet_tui::tui::controller::navigation::{Navigation, Page};
use wallet_tui::tui::views::body::{Area, Body, Border, LEFT_PERCENT, RIGHT_PERCENT};

fn area(x: u16, y: u16, width: u16, height: u16) -> Area {
    Area { x, y, width, height }
}

#[test]
fn the_panes_ask_for_the_whole_width() {
    assert_eq!(LEFT_PERCENT, 70);
    assert_eq!(RIGHT_PERCENT, 30);
}

#[test]
fn a_hundred_columns_split_seventy_to_thirty() {
    let nav = Navigation::new(Page::Root);
    let price = None;
    let body = Body { eth_price: &price, navigation: &nav };
    let frame = body.frame(area(0, 0, 100, 40));
    assert_eq!(frame.left_area, area(0, 0, 70, 40));
    assert_eq!(frame.right_area, area(70, 0, 30, 40));
}

#[test]
fn the_split_starts_where_the_area_starts() {
    let nav = Navigation::new(Page::Root);
    let price = None;
    let body = Body { eth_price: &price, navigation: &nav };
    let frame = body.frame(area(10, 5, 50, 8));
    assert_eq!(frame.left_area, area(10, 5, 35, 8));
    assert_eq!(frame.right_area, area(45, 5, 15, 8));
}

#[test]
fn an_empty_area_gives_empty_panes() {
    let nav = Navigation::new(Page::Root);
    let price = None;
    let body = Body { eth_price: &price, navigation: &nav };
    let frame = body.frame(area(3, 4, 0, 0));
    assert_eq!(frame.left_area.width, 0);
    assert_eq!(frame.right_area.width, 0);
    assert_eq!(frame.left_area.y, 4);
    assert_eq!(frame.left_area.height, 0);
}

#[test]
fn without_a_price_the_placeholder_is_shown() {
    let mut nav = Navigation::new(Page::Root);
    nav.push(Page::Accounts);
    nav.set_input("0xABC");
    let price = None;
    let body = Body { eth_price: &price, navigation: &nav };
    let frame = body.frame(area(0, 0, 80, 24));
    assert_eq!(frame.right.eth_price, "Loading...");
    assert_eq!(frame.left.page, Page::Accounts);
    assert_eq!(frame.left.text_input, "0xABC");
    assert_eq!(frame.border, Border::Plain);
    assert_eq!(*nav.current_page(), Page::Accounts);
    assert_eq!(nav.input(), "0xABC");
    assert_eq!(nav.depth(), 1);
}

#[test]
fn with_a_price_the_price_is_shown() {
    let nav = Navigation::new(Page::Root);
    let price = Some(String::from("3141.59"));
    let body = Body { eth_price: &price, navigation: &nav };
    let frame = body.frame(area(0, 0, 80, 24));
    assert_eq!(frame.right.eth_price, "3141.59");
    assert_eq!(frame.left.page, Page::Root);
    assert_eq!(frame.left.text_input, "");
}

#[test]
fn compose_places_the_panes_where_it_is_told() {
    let mut nav = Navigation::new(Page::Root);
    nav.set_input("q");
    let price = Some(String::from("1"));
    let body = Body { eth_price: &price, navigation: &nav };
    let frame = body.compose(area(1, 2, 3, 4), area(5, 6, 7, 8));
    assert_eq!(frame.left_area, area(1, 2, 3, 4));
    assert_eq!(frame.right_area, area(5, 6, 7, 8));
    assert_eq!(frame.left.page, Page::Root);
    assert_eq!(frame.left.text_input, "q");
    assert_eq!(frame.right.eth_price, "1");
    assert_eq!(frame.border, Border::Plain);
}

#[test]
fn two_drawings_of_one_state_agree() {
    let nav = Navigation::new(Page::AddressBook);
    let price = None;
    let body = Body { eth_price: &price, navigation: &nav };
    let first = body.frame(area(0, 0, 33, 7));
    let second = body.frame(area(0, 0, 33, 7));
    assert_eq!(first.left_area, second.left_area);
    assert_eq!(first.right_area, second.right_area);
    assert_eq!(first.left_area.width + first.right_area.width, 33);
}
