//! Client side of the HTTP `CONNECT` tunneling handshake.
//!
//! Given an already-established bidirectional byte stream to a proxy server,
//! the caller sends the `CONNECT` request produced by the request builder,
//! feeds the proxy's reply line by line to the response accumulator, and
//! hands the accumulated header block to the validator. On success the
//! underlying stream is a transparent tunnel to the requested destination.
//!
//! The handshake is a one-shot protocol: issuing it a second time on the same
//! stream after a success is undefined behavior, since the stream has become
//! an opaque tunnel whose bytes are no longer HTTP.

use vstd::prelude::*;

pub mod request;
pub mod response;

verus! {

/// The maximum length in bytes of the accumulated response header block.
pub const MAXIMUM_RESPONSE_HEADER_LENGTH: usize = 4096;

/// The maximum number of HTTP headers the response parser accepts.
pub const MAXIMUM_RESPONSE_HEADERS: usize = 16;

#[verifier::external_type_specification]
#[verifier::external_body]
pub struct ExIoError(std::io::Error);

#[verifier::external_type_specification]
#[verifier::external_body]
pub struct ExHttparseError(httparse::Error);

/// Every failure that can end the HTTP `CONNECT` handshake.
#[derive(Debug)]
pub enum HttpError {
    /// An underlying read, write or flush failed.
    IoError(std::io::Error),
    /// The response's status line or headers were malformed, or there were
    /// more headers than `MAXIMUM_RESPONSE_HEADERS`.
    HttpParseError(httparse::Error),
    /// The accumulated response text exceeded
    /// `MAXIMUM_RESPONSE_HEADER_LENGTH` before the header block was complete;
    /// carries the partial content gathered so far.
    MaximumResponseHeaderLengthExceeded(String),
    /// The stream closed before a complete header block arrived.
    EndOfFile,
    /// The status line carried no numeric code.
    NoHttpCode,
    /// The status code was present but not 200; carries the actual code.
    HttpCode200(u16),
    /// The status line carried no reason phrase.
    NoHttpReason,
    /// The reason phrase was present but not `Connection Established`;
    /// carries the actual phrase.
    HttpReasonConnectionEstablished(String),
    /// A request was built from a URL whose authority has no host.
    NoHost,
    /// A request was built from a URL with neither an explicit port nor a
    /// scheme with a known default port.
    NoPort,
}

} // verus!
