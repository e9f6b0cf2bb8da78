//! The one error type through which every subsystem reports, and the text
//! that presents it.

use vstd::prelude::*;

use alloy::primitives::Address;
use serde_json::Value;

use crate::collaborators::transport_connect_failure;
use crate::presenter::{compose_report, is_report_of};
use crate::tui::Event;

mod conversions;

verus! {

/// What an operation of the tool gives back.
pub type Result<T> = std::result::Result<T, WalletError>;

/// Every failure the tool can meet. A variant names the failing subsystem and
/// carries what that subsystem reported, untouched.
#[derive(Debug)]
pub enum WalletError {
    /// No account has been selected as the active one.
    CurrentAccountNotSet,
    /// The API key of the node provider is missing.
    AlchemyApiKeyNotSet,
    /// No network is known under this name.
    NetworkNotFound(String),
    /// The address book has no such entry.
    AddressBook(String),
    /// No secret is stored for this address.
    SecretNotFound(Address),
    /// An invariant of the tool itself was violated.
    InternalError(String),
    /// An invariant of the tool itself was violated, with a fixed message.
    InternalErrorStr(&'static str),
    /// A text was no decimal number.
    ParseFloatError(std::num::ParseFloatError),
    /// A read or a write failed.
    IoError(std::io::Error),
    /// A text was not hexadecimal.
    FromHexError(alloy::hex::FromHexError),
    /// The platform keystore refused, with its status code.
    AppleSecurityFrameworkError(i32),
    /// A prompt was cancelled or could not run.
    InquireError(inquire::InquireError),
    /// Signing on the curve failed.
    AlloyEcdsaError(alloy::signers::k256::ecdsa::Error),
    /// A TOML text could not be read.
    TomlDeError(toml::de::Error),
    /// A value could not be written as TOML.
    TomlSerError(toml::ser::Error),
    /// A YAML text could not be read or written.
    YamlError(serde_yaml::Error),
    /// An HTTP exchange failed: the one failure that may be a failure to
    /// connect.
    ReqwestError(Box<reqwest::Error>),
    /// A JSON text could not be read or written.
    SerdeJson(Box<serde_json::Error>),
    /// A JSON document could not be read, with the path to the place.
    SerdePathToError(Box<serde_path_to_error::Error<serde_json::Error>>),
    /// A JSON value did not have the expected shape; the value is kept.
    SerdeJsonWithValue(Box<serde_json::Error>, Box<Value>),
    /// A JSON text could not be read; the text is kept.
    SerdeJsonWithString(Box<serde_json::Error>, String),
    /// The channel to the control loop has lost its senders.
    MpscRecvError(std::sync::mpsc::RecvError),
    /// The channel to the control loop has lost its receiver; the message
    /// that was not sent is kept.
    MpscSendError(std::sync::mpsc::SendError<Event>),
    /// Deriving keys from a mnemonic failed, as the deriving side worded it.
    MnemonicError(String),
    /// The signer that holds its key in memory failed.
    AlloyLocalSignerError(alloy::signers::local::LocalSignerError),
    /// Bytes were no UTF-8 text.
    FromUtf8Error(std::string::FromUtf8Error),
    /// A call to a node failed.
    RpcError(Box<alloy::transports::RpcError<alloy::transports::TransportErrorKind>>),
    /// An amount could not be converted between units.
    UnitsError(alloy::primitives::utils::UnitsError),
    /// A signer failed.
    AlloySignerError(alloy::signers::Error),
    /// Waiting for a sent transaction failed, as the watcher worded it.
    AlloyPendingTransactionError(String),
    /// The user called the current operation off.
    Abort(&'static str),
    /// A text was no URL.
    UrlParseError(url::ParseError),
    /// The chain-data service failed, as it worded the failure.
    Data3Error(String),
}

impl WalletError {
    /// This is a failure of the HTTP transport, and what caused it is a
    /// failure to establish the connection. No other variant counts: a
    /// failed call to a node, too, is taken as it is, since nothing it
    /// carries tells whether a connection was the cause.
    pub open spec fn connect_failure(&self) -> bool {
        match self {
            WalletError::ReqwestError(e) => transport_connect_failure(**e),
            _ => false,
        }
    }

    /// Tells a failure to connect from every other failure: from the other
    /// failures of the transport, and from every failure of another kind.
    pub fn is_connect_reqwest(&self) -> (b: bool)
        ensures
            b == self.connect_failure(),
            !(self is ReqwestError) ==> !b,
    {
        match self {
            Self::ReqwestError(error) => error.is_connect(),
            _ => false,
        }
    }

    /// The text that shows this error on its own: an address-book failure
    /// in words, every other failure as its one-line dump.
    pub fn to_string(&self) -> (text: String)
        ensures
            self matches WalletError::AddressBook(entry) ==> text@ == address_book_lead()
                + entry@,
    {
        match self {
            WalletError::AddressBook(entry) => {
                let mut text = String::from_str("Error from AddressBook: ");
                text.append(entry.as_str());
                text
            },
            _ => dump_line(self),
        }
    }
}

/// What leads the text of an address-book failure.
pub open spec fn address_book_lead() -> Seq<char> {
    "Error from AddressBook: "@
}

/// Something that can report itself to the user under the name of the
/// operation that failed.
pub trait FmtError {
    /// Whether this is a failure to connect.
    spec fn is_connect_failure(&self) -> bool;

    /// The report: the operation's name, a colon, the details. The details
    /// of a failure to connect start with the connectivity hint.
    fn fmt_err(&self, id: &str) -> (text: String)
        ensures
            is_report_of(text@, id@, self.is_connect_failure()),
    ;
}

impl FmtError for WalletError {
    open spec fn is_connect_failure(&self) -> bool {
        self.connect_failure()
    }

    fn fmt_err(&self, id: &str) -> (text: String) {
        let details = dump_pretty(self);
        compose_report(id, self.is_connect_reqwest(), details.as_str())
    }
}

impl FmtError for reqwest::Error {
    open spec fn is_connect_failure(&self) -> bool {
        transport_connect_failure(*self)
    }

    fn fmt_err(&self, id: &str) -> (text: String) {
        let details = dump_transport(self);
        compose_report(id, self.is_connect(), details.as_str())
    }
}

/// `format!` with `{:?}` on an error: the one-line dump that the `Debug`
/// impls of the error and of what it carries write. Nothing is claimed of
/// the text.
#[verifier::external_body]
fn dump_line(error: &WalletError) -> String {
    format!("{error:?}")
}

/// `format!` with `{:#?}` on an error: the indented dump that the `Debug`
/// impls of the error and of what it carries write. Nothing is claimed of
/// the text.
#[verifier::external_body]
fn dump_pretty(error: &WalletError) -> String {
    format!("{error:#?}")
}

/// `format!` with `{:?}` on a `reqwest::Error`: the dump that its `Debug`
/// impl writes. Nothing is claimed of the text.
#[verifier::external_body]
fn dump_transport(error: &reqwest::Error) -> String {
    format!("{error:?}")
}

} // verus!
