use std::sync::Arc;

use reqwest::dns::{Addrs, Name, Resolve, Resolving};
use wallet_tui::error::{FmtError, WalletError};

const HINT: &str = "Please check your internet connection - ";

/// A resolver that knows no name.
struct NoSuchName;

impl Resolve for NoSuchName {
    fn resolve(&self, _name: Name) -> Resolving {
        let unknown = std::io::Error::new(std::io::ErrorKind::NotFound, "no such name");
        Box::pin(std::future::ready(Err(unknown.into())))
    }
}

/// A resolver that finds every name and no address for it.
struct NoAddress;

impl Resolve for NoAddress {
    fn resolve(&self, _name: Name) -> Resolving {
        let none: Addrs = Box::new(std::iter::empty());
        Box::pin(std::future::ready(Ok(none)))
    }
}

fn client<R: Resolve + 'static>(resolver: R) -> reqwest::blocking::Client {
    reqwest::blocking::Client::builder()
        .no_proxy()
        .dns_resolver(Arc::new(resolver))
        .build()
        .unwrap()
}

fn unresolvable() -> reqwest::Error {
    client(NoSuchName)
        .get("http://node.example/")
        .send()
        .unwrap_err()
}

fn unreachable_host() -> reqwest::Error {
    client(NoAddress)
        .get("http://node.example/")
        .send()
        .unwrap_err()
}

fn bad_request() -> reqwest::Error {
    client(NoSuchName).get("this is no url").build().unwrap_err()
}

#[test]
fn domain_errors_are_not_connect_errors() {
    assert!(!WalletError::CurrentAccountNotSet.is_connect_reqwest());
    assert!(!WalletError::AlchemyApiKeyNotSet.is_connect_reqwest());
    assert!(!WalletError::NetworkNotFound(String::from("mainnet")).is_connect_reqwest());
    assert!(!WalletError::AddressBook(String::from("bob")).is_connect_reqwest());
    assert!(!WalletError::InternalErrorStr("bug").is_connect_reqwest());
    assert!(!WalletError::Abort("stop").is_connect_reqwest());
    assert!(!WalletError::AppleSecurityFrameworkError(-25300).is_connect_reqwest());
    assert!(!WalletError::MnemonicError(String::from("bad word")).is_connect_reqwest());
}

#[test]
fn an_io_error_about_a_connection_is_not_a_connect_error() {
    let refused = std::io::Error::new(std::io::ErrorKind::ConnectionRefused, "refused");
    assert!(!WalletError::from(refused).is_connect_reqwest());
}

#[test]
fn a_failed_name_lookup_is_a_connect_error() {
    let error = WalletError::from(unresolvable());
    assert!(error.is_connect_reqwest());
    let text = error.fmt_err("price");
    assert!(text.starts_with("price: Please check your internet connection - "));
    assert!(text.contains("no such name"));
}

#[test]
fn a_host_without_an_address_is_a_connect_error() {
    let error = WalletError::from(unreachable_host());
    assert!(error.is_connect_reqwest());
    let text = error.fmt_err("balance");
    assert!(text.starts_with("balance: "));
    assert!(text["balance: ".len()..].starts_with(HINT));
}

#[test]
fn a_transport_error_with_another_cause_is_not_a_connect_error() {
    let error = WalletError::from(bad_request());
    assert!(matches!(error, WalletError::ReqwestError(_)));
    assert!(!error.is_connect_reqwest());
    let text = error.fmt_err("price");
    assert!(text.starts_with("price: ReqwestError("));
    assert!(!text.contains(HINT));
}

#[test]
fn the_transport_error_reports_itself_too() {
    let failed = unresolvable();
    assert!(failed.is_connect());
    let text = failed.fmt_err("price");
    assert_eq!(
        text,
        format!("price: Please check your internet connection - {failed:?}")
    );
    let built = bad_request();
    assert_eq!(built.fmt_err("price"), format!("price: {built:?}"));
}

#[test]
fn the_report_of_a_connect_error_holds_the_indented_dump() {
    let error = WalletError::from(unresolvable());
    let text = error.fmt_err("balance");
    assert_eq!(
        text,
        format!("balance: Please check your internet connection - {error:#?}")
    );
}

#[test]
fn every_report_starts_with_the_name_of_the_operation() {
    let errors = [
        WalletError::from(unresolvable()),
        WalletError::from(bad_request()),
        WalletError::CurrentAccountNotSet,
        WalletError::from("bug"),
    ];
    for error in &errors {
        for id in ["", "price", "Please", "a: b"] {
            assert!(error.fmt_err(id).starts_with(&format!("{id}: ")));
        }
    }
}
