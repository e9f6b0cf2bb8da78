//! One conversion per source of failure. Each wraps what the source reported
//! in the variant that names the source, and changes nothing in it.

use vstd::prelude::*;
use vstd::std_specs::convert::FromSpecImpl;

use crate::error::WalletError;
use crate::tui::Event;

verus! {

impl<'a> From<&'a str> for WalletError {
    /// A message becomes an internal error that holds a copy of it.
    fn from(e: &'a str) -> (error: WalletError)
        ensures
            error matches WalletError::InternalError(message) && message@ == e@,
    {
        WalletError::InternalError(String::from_str(e))
    }
}

impl<'a> FromSpecImpl<&'a str> for WalletError {
    /// The copy is a new `String`, which no expression over the message
    /// names: the conversion states its result itself.
    open spec fn obeys_from_spec() -> bool {
        false
    }

    open spec fn from_spec(e: &'a str) -> WalletError {
        arbitrary()
    }
}

impl From<std::num::ParseFloatError> for WalletError {
    /// A number that could not be read.
    fn from(e: std::num::ParseFloatError) -> (error: WalletError) {
        WalletError::ParseFloatError(e)
    }
}

impl FromSpecImpl<std::num::ParseFloatError> for WalletError {
    open spec fn obeys_from_spec() -> bool {
        true
    }

    open spec fn from_spec(e: std::num::ParseFloatError) -> WalletError {
        WalletError::ParseFloatError(e)
    }
}

impl From<alloy::hex::FromHexError> for WalletError {
    /// A text that is not hexadecimal.
    fn from(e: alloy::hex::FromHexError) -> (error: WalletError) {
        WalletError::FromHexError(e)
    }
}

impl FromSpecImpl<alloy::hex::FromHexError> for WalletError {
    open spec fn obeys_from_spec() -> bool {
        true
    }

    open spec fn from_spec(e: alloy::hex::FromHexError) -> WalletError {
        WalletError::FromHexError(e)
    }
}

impl From<std::io::Error> for WalletError {
    /// A failed read or write.
    fn from(e: std::io::Error) -> (error: WalletError) {
        WalletError::IoError(e)
    }
}

impl FromSpecImpl<std::io::Error> for WalletError {
    open spec fn obeys_from_spec() -> bool {
        true
    }

    open spec fn from_spec(e: std::io::Error) -> WalletError {
        WalletError::IoError(e)
    }
}

impl From<inquire::InquireError> for WalletError {
    /// A prompt that was cancelled or could not run.
    fn from(e: inquire::InquireError) -> (error: WalletError) {
        WalletError::InquireError(e)
    }
}

impl FromSpecImpl<inquire::InquireError> for WalletError {
    open spec fn obeys_from_spec() -> bool {
        true
    }

    open spec fn from_spec(e: inquire::InquireError) -> WalletError {
        WalletError::InquireError(e)
    }
}

impl From<alloy::signers::k256::ecdsa::Error> for WalletError {
    /// A failed signature on the curve.
    fn from(e: alloy::signers::k256::ecdsa::Error) -> (error: WalletError) {
        WalletError::AlloyEcdsaError(e)
    }
}

impl FromSpecImpl<alloy::signers::k256::ecdsa::Error> for WalletError {
    open spec fn obeys_from_spec() -> bool {
        true
    }

    open spec fn from_spec(e: alloy::signers::k256::ecdsa::Error) -> WalletError {
        WalletError::AlloyEcdsaError(e)
    }
}

impl From<toml::de::Error> for WalletError {
    /// A TOML text that could not be read.
    fn from(e: toml::de::Error) -> (error: WalletError) {
        WalletError::TomlDeError(e)
    }
}

impl FromSpecImpl<toml::de::Error> for WalletError {
    open spec fn obeys_from_spec() -> bool {
        true
    }

    open spec fn from_spec(e: toml::de::Error) -> WalletError {
        WalletError::TomlDeError(e)
    }
}

impl From<toml::ser::Error> for WalletError {
    /// A value that could not be written as TOML.
    fn from(e: toml::ser::Error) -> (error: WalletError) {
        WalletError::TomlSerError(e)
    }
}

impl FromSpecImpl<toml::ser::Error> for WalletError {
    open spec fn obeys_from_spec() -> bool {
        true
    }

    open spec fn from_spec(e: toml::ser::Error) -> WalletError {
        WalletError::TomlSerError(e)
    }
}

impl From<serde_yaml::Error> for WalletError {
    /// A YAML text that could not be read or written.
    fn from(e: serde_yaml::Error) -> (error: WalletError) {
        WalletError::YamlError(e)
    }
}

impl FromSpecImpl<serde_yaml::Error> for WalletError {
    open spec fn obeys_from_spec() -> bool {
        true
    }

    open spec fn from_spec(e: serde_yaml::Error) -> WalletError {
        WalletError::YamlError(e)
    }
}

impl From<reqwest::Error> for WalletError {
    /// A failed HTTP exchange.
    fn from(e: reqwest::Error) -> (error: WalletError) {
        WalletError::ReqwestError(Box::new(e))
    }
}

impl FromSpecImpl<reqwest::Error> for WalletError {
    open spec fn obeys_from_spec() -> bool {
        true
    }

    open spec fn from_spec(e: reqwest::Error) -> WalletError {
        WalletError::ReqwestError(Box::new(e))
    }
}

impl From<serde_json::Error> for WalletError {
    /// A JSON text that could not be read or written.
    fn from(e: serde_json::Error) -> (error: WalletError) {
        WalletError::SerdeJson(Box::new(e))
    }
}

impl FromSpecImpl<serde_json::Error> for WalletError {
    open spec fn obeys_from_spec() -> bool {
        true
    }

    open spec fn from_spec(e: serde_json::Error) -> WalletError {
        WalletError::SerdeJson(Box::new(e))
    }
}

impl From<std::sync::mpsc::RecvError> for WalletError {
    /// A channel whose senders are gone.
    fn from(e: std::sync::mpsc::RecvError) -> (error: WalletError) {
        WalletError::MpscRecvError(e)
    }
}

impl FromSpecImpl<std::sync::mpsc::RecvError> for WalletError {
    open spec fn obeys_from_spec() -> bool {
        true
    }

    open spec fn from_spec(e: std::sync::mpsc::RecvError) -> WalletError {
        WalletError::MpscRecvError(e)
    }
}

impl From<std::sync::mpsc::SendError<Event>> for WalletError {
    /// A channel whose receiver is gone; the message comes back inside.
    fn from(e: std::sync::mpsc::SendError<Event>) -> (error: WalletError) {
        WalletError::MpscSendError(e)
    }
}

impl FromSpecImpl<std::sync::mpsc::SendError<Event>> for WalletError {
    open spec fn obeys_from_spec() -> bool {
        true
    }

    open spec fn from_spec(e: std::sync::mpsc::SendError<Event>) -> WalletError {
        WalletError::MpscSendError(e)
    }
}

impl From<alloy::signers::local::LocalSignerError> for WalletError {
    /// A failure of the signer that holds its key in memory.
    fn from(e: alloy::signers::local::LocalSignerError) -> (error: WalletError) {
        WalletError::AlloyLocalSignerError(e)
    }
}

impl FromSpecImpl<alloy::signers::local::LocalSignerError> for WalletError {
    open spec fn obeys_from_spec() -> bool {
        true
    }

    open spec fn from_spec(e: alloy::signers::local::LocalSignerError) -> WalletError {
        WalletError::AlloyLocalSignerError(e)
    }
}

impl From<std::string::FromUtf8Error> for WalletError {
    /// Bytes that are not UTF-8.
    fn from(e: std::string::FromUtf8Error) -> (error: WalletError) {
        WalletError::FromUtf8Error(e)
    }
}

impl FromSpecImpl<std::string::FromUtf8Error> for WalletError {
    open spec fn obeys_from_spec() -> bool {
        true
    }

    open spec fn from_spec(e: std::string::FromUtf8Error) -> WalletError {
        WalletError::FromUtf8Error(e)
    }
}

impl From<alloy::transports::RpcError<alloy::transports::TransportErrorKind>> for WalletError {
    /// A failed call to a node.
    fn from(e: alloy::transports::RpcError<alloy::transports::TransportErrorKind>) -> (error: WalletError) {
        WalletError::RpcError(Box::new(e))
    }
}

impl FromSpecImpl<alloy::transports::RpcError<alloy::transports::TransportErrorKind>> for WalletError {
    open spec fn obeys_from_spec() -> bool {
        true
    }

    open spec fn from_spec(e: alloy::transports::RpcError<alloy::transports::TransportErrorKind>) -> WalletError {
        WalletError::RpcError(Box::new(e))
    }
}

impl From<alloy::primitives::utils::UnitsError> for WalletError {
    /// An amount that could not be converted between units.
    fn from(e: alloy::primitives::utils::UnitsError) -> (error: WalletError) {
        WalletError::UnitsError(e)
    }
}

impl FromSpecImpl<alloy::primitives::utils::UnitsError> for WalletError {
    open spec fn obeys_from_spec() -> bool {
        true
    }

    open spec fn from_spec(e: alloy::primitives::utils::UnitsError) -> WalletError {
        WalletError::UnitsError(e)
    }
}

impl From<alloy::signers::Error> for WalletError {
    /// A failure of a signer.
    fn from(e: alloy::signers::Error) -> (error: WalletError) {
        WalletError::AlloySignerError(e)
    }
}

impl FromSpecImpl<alloy::signers::Error> for WalletError {
    open spec fn obeys_from_spec() -> bool {
        true
    }

    open spec fn from_spec(e: alloy::signers::Error) -> WalletError {
        WalletError::AlloySignerError(e)
    }
}

impl From<url::ParseError> for WalletError {
    /// A text that is not a URL.
    fn from(e: url::ParseError) -> (error: WalletError) {
        WalletError::UrlParseError(e)
    }
}

impl FromSpecImpl<url::ParseError> for WalletError {
    open spec fn obeys_from_spec() -> bool {
        true
    }

    open spec fn from_spec(e: url::ParseError) -> WalletError {
        WalletError::UrlParseError(e)
    }
}

} // verus!
