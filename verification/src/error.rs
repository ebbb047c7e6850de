//! Errors of the client core.

use vstd::prelude::*;

verus! {

/// The failures a call can end in.
#[derive(Debug)]
pub enum Error {
    /// The name lookup gave no address.
    Dns,
    /// The name lookup took longer than allowed.
    ResolveTimeout,
    /// No connection could be opened.
    ConnectionFailed,
    /// Opening the connection took longer than allowed.
    ConnectTimeout,
    /// The TLS handshake failed.
    TlsHandshake,
    /// The proxy refused to open a tunnel.
    ProxyConnect,
    /// The response headers are larger than the configured maximum.
    HeaderTooLarge,
    /// The response is not valid HTTP/1.1.
    MalformedResponse,
    /// The body is larger than the limit given by the reader's caller.
    BodyExceedsLimit,
    /// A 4xx or 5xx status, where the configuration treats those as errors.
    StatusCode(u16),
    /// More redirects than the configuration allows.
    TooManyRedirects,
    /// A redirect to a non-https target while only https is allowed.
    InsecureRedirect,
    /// A phase took longer than its timeout.
    Timeout(Phase),
    /// A redirect asks to send the body again, and the body cannot be sent twice.
    BodyNotReplayable,
    /// An error of the byte stream or of a decoder, with its source.
    Io(std::io::Error),
}

/// The phases of a call that have a timeout of their own.
#[derive(Debug, Clone, Copy, PartialEq, Eq, Structural)]
pub enum Phase {
    Global,
    PerCall,
    Resolve,
    Connect,
    SendRequest,
    Await100,
    SendBody,
    RecvResponse,
    RecvBody,
}

/// The error type of the standard library's readers and writers.
#[verifier::external_type_specification]
#[verifier::external_body]
pub struct ExIoError(std::io::Error);

} // verus!
