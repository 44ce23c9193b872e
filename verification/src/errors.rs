//! Error taxonomy shared by the client, signer and tracker.

use vstd::prelude::*;

use crate::types::TransactionStatus;

verus! {

/// Errors surfaced by the API client, the signer and the polling tracker.
///
/// `GetError` and `PostError` carry the HTTP status code of the failed
/// request; `TxError` carries the terminal remote status and its sub-status
/// text; `Timeout` reports that the local polling budget ran out, which is
/// distinct from the remote-reported `TIMEOUT` transaction status.
#[derive(Debug)]
pub enum FireblocksError {
    /// A response could not be decoded as the expected JSON shape.
    JSONError(String),
    /// Producing the request token failed; the request must be aborted.
    SignJWTError(String),
    /// A header value could not be constructed from the token or API key.
    HeaderError(String),
    /// Submitting the HTTP request failed at the transport level.
    SendError(String),
    /// A GET request did not yield a usable successful response.
    GetError(String, u16),
    /// A POST request did not yield a usable successful response.
    PostError(String, u16),
    /// The remote system reported a terminal failure for the transaction.
    TxError(TransactionStatus, String),
    /// A value could not be parsed into the required form.
    ParseError(String),
    /// The local wait budget was exceeded while polling; the remote
    /// transaction may still be progressing.
    Timeout,
    /// No asset id was configured where one is required.
    MissingAssetIDError,
    /// A deposit address string was not a valid account address.
    InvalidAddressError(String),
    /// Shared account state could not be locked for writing.
    SynchronizationError(String),
}

/// Errors from building or signing a request token.
#[derive(Debug)]
pub enum JwtError {
    /// The current time could not be combined with the expiry window.
    Time(String),
    /// The signing key was rejected or the signature could not be produced.
    Jwt(String),
}

} // verus!
