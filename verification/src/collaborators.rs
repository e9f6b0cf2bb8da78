//! What the library has from the crates it works with, and believes of them
//! without proof.
//!
//! Their error types are carried from the point of failure to the point
//! where they are shown. The library never looks inside one: each is
//! declared here as an opaque type, of which nothing is known but its name.
//! The one question that is asked of such a value, whether a transport error
//! is a failure to connect, is answered by the transport crate itself.

use vstd::prelude::*;

verus! {

/// `alloy::primitives::Address`, opaque. An account's address, 20 bytes.
#[verifier::external_type_specification]
#[verifier::external_body]
pub struct ExAddress(alloy::primitives::Address);

/// `std::num::ParseFloatError`, opaque. What std reports when a text is no decimal number.
#[verifier::external_type_specification]
#[verifier::external_body]
pub struct ExParseFloatError(std::num::ParseFloatError);

/// `std::io::Error`, opaque. What std reports when a read or a write fails.
#[verifier::external_type_specification]
#[verifier::external_body]
pub struct ExIoError(std::io::Error);

/// `alloy::hex::FromHexError`, opaque. What alloy's hex decoder reports.
#[verifier::external_type_specification]
#[verifier::external_body]
pub struct ExFromHexError(alloy::hex::FromHexError);

/// `inquire::InquireError`, opaque. What a prompt of inquire reports, a cancelled prompt among it.
#[verifier::external_type_specification]
#[verifier::external_body]
pub struct ExInquireError(inquire::InquireError);

/// `alloy::signers::k256::ecdsa::Error`, opaque. What signing on the secp256k1 curve reports.
#[verifier::external_type_specification]
#[verifier::external_body]
pub struct ExEcdsaError(alloy::signers::k256::ecdsa::Error);

/// `toml::de::Error`, opaque. What toml reports when it cannot read a text.
#[verifier::external_type_specification]
#[verifier::external_body]
pub struct ExTomlDeError(toml::de::Error);

/// `toml::ser::Error`, opaque. What toml reports when it cannot write a value.
#[verifier::external_type_specification]
#[verifier::external_body]
pub struct ExTomlSerError(toml::ser::Error);

/// `serde_yaml::Error`, opaque. What serde_yaml reports.
#[verifier::external_type_specification]
#[verifier::external_body]
pub struct ExYamlError(serde_yaml::Error);

/// `reqwest::Error`, opaque. What reqwest reports when an HTTP exchange fails.
#[verifier::external_type_specification]
#[verifier::external_body]
pub struct ExReqwestError(reqwest::Error);

/// `serde_json::Error`, opaque. What serde_json reports.
#[verifier::external_type_specification]
#[verifier::external_body]
pub struct ExJsonError(serde_json::Error);

/// `serde_json::Value`, opaque. A JSON value of serde_json.
#[verifier::external_type_specification]
#[verifier::external_body]
pub struct ExJsonValue(serde_json::Value);

/// `serde_json::value::RawValue`, opaque. A JSON text that serde_json has not taken apart, as a node's error
/// response carries it.
#[verifier::external_type_specification]
#[verifier::external_body]
pub struct ExRawValue(serde_json::value::RawValue);

/// `serde_path_to_error::Error`, opaque. An error `E` together with the path to the place in the document where
/// it arose, as serde_path_to_error reports it.
#[verifier::external_type_specification]
#[verifier::external_body]
#[verifier::reject_recursive_types(E)]
pub struct ExPathError<E>(serde_path_to_error::Error<E>);

/// `std::sync::mpsc::RecvError`, opaque. What std reports when a channel is read whose senders are gone.
#[verifier::external_type_specification]
#[verifier::external_body]
pub struct ExRecvError(std::sync::mpsc::RecvError);

/// `std::sync::mpsc::SendError`, opaque. What std reports when a channel is written whose receiver is gone. It
/// holds the message that was not sent.
#[verifier::external_type_specification]
#[verifier::external_body]
#[verifier::reject_recursive_types(T)]
pub struct ExSendError<T>(std::sync::mpsc::SendError<T>);

/// `alloy::signers::local::LocalSignerError`, opaque. What alloy's signer with a key in memory reports.
#[verifier::external_type_specification]
#[verifier::external_body]
pub struct ExLocalSignerError(alloy::signers::local::LocalSignerError);

/// `std::string::FromUtf8Error`, opaque. What std reports when bytes are no UTF-8 text.
#[verifier::external_type_specification]
#[verifier::external_body]
pub struct ExFromUtf8Error(std::string::FromUtf8Error);

/// `alloy::transports::RpcError`, opaque. What a call to a node reports: a failure `E` of the transport, or the
/// node's own error response `ErrResp`.
#[verifier::external_type_specification]
#[verifier::external_body]
#[verifier::reject_recursive_types(E)]
#[verifier::reject_recursive_types(ErrResp)]
pub struct ExRpcError<E, ErrResp>(alloy::transports::RpcError<E, ErrResp>);

/// `alloy::transports::TransportErrorKind`, opaque. The ways in which alloy's transport to a node fails.
#[verifier::external_type_specification]
#[verifier::external_body]
pub struct ExTransportErrorKind(alloy::transports::TransportErrorKind);

/// `alloy::primitives::utils::UnitsError`, opaque. What alloy reports when an amount cannot be converted between units.
#[verifier::external_type_specification]
#[verifier::external_body]
pub struct ExUnitsError(alloy::primitives::utils::UnitsError);

/// `alloy::signers::Error`, opaque. What a signer of alloy reports.
#[verifier::external_type_specification]
#[verifier::external_body]
pub struct ExSignerError(alloy::signers::Error);

/// `url::ParseError`, opaque. What url reports when a text is no URL.
#[verifier::external_type_specification]
#[verifier::external_body]
pub struct ExUrlParseError(url::ParseError);

/// What `reqwest::Error::is_connect` answers for a transport error: whether
/// the error stems from a failure to establish the connection.
pub uninterp spec fn transport_connect_failure(e: reqwest::Error) -> bool;

/// `reqwest::Error::is_connect`. It walks the chain of the error's sources
/// and answers `true` when one of them is a connect error of the HTTP client
/// beneath. The answer depends on the error alone, so it has a name.
pub assume_specification[ reqwest::Error::is_connect ](e: &reqwest::Error) -> (b: bool)
    ensures
        b == transport_connect_failure(*e),
;

} // verus!
