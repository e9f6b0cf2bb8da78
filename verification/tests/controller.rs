use wallet_tui::error::WalletError;
use wallet_tui::tui::controller::navigation::{Navigation, Page, Transition};
use wallet_tui::tui::controller::{handle, recover, Recovery};
use wallet_tui::tui::Event;

#[test]
fn a_step_of_navigation_leaves_the_price() {
    let mut nav = Navigation::new(Page::Root);
    let mut price = Some(String::from("10"));
    handle(&mut nav, &mut price, Event::Navigate(Transition::Push(Page::Networks)));
    assert_eq!(*nav.current_page(), Page::Networks);
    assert_eq!(price, Some(String::from("10")));
    handle(&mut nav, &mut price, Event::Navigate(Transition::SetInput(String::from("main"))));
    assert_eq!(nav.input(), "main");
    handle(&mut nav, &mut price, Event::Navigate(Transition::Pop));
    assert_eq!(*nav.current_page(), Page::Root);
    assert_eq!(price, Some(String::from("10")));
}

#[test]
fn a_price_leaves_the_pages() {
    let mut nav = Navigation::new(Page::Root);
    nav.push(Page::Accounts);
    nav.set_input("0x");
    let mut price = None;
    handle(&mut nav, &mut price, Event::EthPriceUpdate(String::from("3141.59")));
    assert_eq!(price, Some(String::from("3141.59")));
    handle(&mut nav, &mut price, Event::EthPriceUpdate(String::from("3000")));
    assert_eq!(price, Some(String::from("3000")));
    assert_eq!(*nav.current_page(), Page::Accounts);
    assert_eq!(nav.input(), "0x");
    assert_eq!(nav.depth(), 1);
}

#[test]
fn an_abort_leads_one_page_back() {
    let mut nav = Navigation::new(Page::Root);
    nav.set_input("menu");
    nav.push(Page::Accounts);
    nav.push(Page::Account(2));
    let recovery = recover(&mut nav, "sign", &WalletError::Abort("declined"));
    assert_eq!(recovery, Recovery::WentBack);
    assert_eq!(*nav.current_page(), Page::Accounts);
    assert_eq!(nav.depth(), 1);
}

#[test]
fn an_abort_on_the_root_page_stays_there() {
    let mut nav = Navigation::new(Page::Root);
    nav.set_input("menu");
    let recovery = recover(&mut nav, "sign", &WalletError::Abort("declined"));
    assert_eq!(recovery, Recovery::WentBack);
    assert_eq!(*nav.current_page(), Page::Root);
    assert_eq!(nav.input(), "menu");
    assert_eq!(nav.depth(), 0);
}

#[test]
fn any_other_failure_is_reported_on_the_page() {
    let mut nav = Navigation::new(Page::Root);
    nav.push(Page::Networks);
    nav.set_input("goerli");
    let error = WalletError::NetworkNotFound(String::from("goerli"));
    let recovery = recover(&mut nav, "switch", &error);
    assert_eq!(recovery, Recovery::Report(format!("switch: {error:#?}")));
    assert_eq!(*nav.current_page(), Page::Networks);
    assert_eq!(nav.input(), "goerli");
    assert_eq!(nav.depth(), 1);
}

#[test]
fn a_cancelled_prompt_is_reported_and_the_page_stays() {
    let mut nav = Navigation::new(Page::Root);
    nav.push(Page::AddressBook);
    let error = WalletError::from(inquire::InquireError::OperationCanceled);
    match recover(&mut nav, "pick", &error) {
        Recovery::Report(text) => assert!(text.starts_with("pick: InquireError(")),
        Recovery::WentBack => panic!("left the page"),
    }
    assert_eq!(*nav.current_page(), Page::AddressBook);
}
