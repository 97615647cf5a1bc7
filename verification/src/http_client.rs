//! The decisions of the outbound HTTP client that serves guest requests:
//! where to connect, how long to wait, what a failure is reported as, and
//! what request line HTTP/1.1 sends.
//!
//! The front end opens the sockets and speaks TLS; it hands the outcome of
//! each step back here.
use vstd::prelude::*;

use crate::text::{has_prefix, owned, push_str, starts_with};

verus! {

/// The error codes of `wasi:http/types` that the client reports.
#[derive(Debug, PartialEq, Eq)]
pub enum ErrorCode {
    /// The request URI has no authority.
    HttpRequestUriInvalid,
    /// The host could not be resolved or named; the DNS response code and
    /// information code.
    DnsError { rcode: Option<String>, info_code: Option<u16> },
    /// The server refused the connection.
    ConnectionRefused,
    /// Connecting, or the HTTP handshake, took too long.
    ConnectionTimeout,
    /// The TLS handshake failed.
    TlsProtocolError,
    /// No response, or no further body bytes, came in time.
    ConnectionReadTimeout,
    /// The response timed out while it was read.
    HttpResponseTimeout,
    /// The response broke the protocol.
    HttpProtocolError,
}

/// A DNS error with the response code `rcode` and information code 0.
pub fn dns_error(rcode: &str) -> (e: ErrorCode)
    ensures
        e matches ErrorCode::DnsError { rcode: Some(r), info_code: Some(0) } && r@ == rcode@,
{
    ErrorCode::DnsError { rcode: Some(owned(rcode)), info_code: Some(0) }
}

/// The address to connect to: the authority as written when it names a
/// port, else with the default port (443 with TLS, 80 without).
pub open spec fn spec_connect_address(authority: Seq<char>, has_port: bool, use_tls: bool) -> Seq<char> {
    if has_port {
        authority
    } else if use_tls {
        authority + ":443"@
    } else {
        authority + ":80"@
    }
}

/// The address to connect to for a request to `authority`.
pub fn connect_address(authority: &str, has_port: bool, use_tls: bool) -> (a: String)
    ensures
        a@ == spec_connect_address(authority@, has_port, use_tls),
{
    let mut a = owned(authority);
    if !has_port {
        if use_tls {
            push_str(&mut a, ":443");
        } else {
            push_str(&mut a, ":80");
        }
    }
    a
}

/// Ten minutes, in milliseconds: the wait when the guest sets none.
pub const DEFAULT_TIMEOUT_MS: u64 = 600000;

/// A timeout the guest may set, in milliseconds; ten minutes when unset.
pub fn timeout_or_default(requested_ms: Option<u64>) -> (t: u64)
    ensures
        t == match requested_ms {
            Some(ms) => ms,
            None => DEFAULT_TIMEOUT_MS,
        },
{
    match requested_ms {
        Some(ms) => ms,
        None => DEFAULT_TIMEOUT_MS,
    }
}

/// How connecting to the server ended.
pub enum ConnectOutcome {
    /// The connection is open.
    Connected,
    /// The connect timeout elapsed first.
    TimedOut,
    /// Connecting failed: whether the address was not available, and the
    /// error's message.
    Failed { addr_not_available: bool, message: String },
}

/// The error a connection attempt is reported as, if it failed: a DNS
/// error when the address is unavailable or could not be looked up, a
/// refusal otherwise, a timeout when it took too long.
pub open spec fn spec_connect_error(outcome: ConnectOutcome) -> Option<(nat, Seq<char>)> {
    match outcome {
        ConnectOutcome::Connected => None,
        ConnectOutcome::TimedOut => Some((1, Seq::empty())),
        ConnectOutcome::Failed { addr_not_available, message } => if addr_not_available || has_prefix(
            message@,
            "failed to lookup address information"@,
        ) {
            Some((0, "address not available"@))
        } else {
            Some((2, Seq::empty()))
        },
    }
}

/// An error code as a kind and the DNS response code: 0 for a DNS error,
/// 1 for a connection timeout, 2 for a refusal, 3 for anything else.
pub open spec fn error_view(e: ErrorCode) -> (nat, Seq<char>) {
    match e {
        ErrorCode::DnsError { rcode: Some(r), info_code: Some(0) } => (0, r@),
        ErrorCode::ConnectionTimeout => (1, Seq::empty()),
        ErrorCode::ConnectionRefused => (2, Seq::empty()),
        _ => (3, Seq::empty()),
    }
}

/// The error a connection attempt is reported as, if it failed.
pub fn connect_error(outcome: &ConnectOutcome) -> (e: Option<ErrorCode>)
    ensures
        match e {
            Some(code) => spec_connect_error(*outcome) == Some(error_view(code)),
            None => spec_connect_error(*outcome) is None,
        },
{
    match outcome {
        ConnectOutcome::Connected => None,
        ConnectOutcome::TimedOut => Some(ErrorCode::ConnectionTimeout),
        ConnectOutcome::Failed { addr_not_available, message } => {
            if *addr_not_available || starts_with(message.as_str(), "failed to lookup address information") {
                Some(dns_error("address not available"))
            } else {
                Some(ErrorCode::ConnectionRefused)
            }
        },
    }
}

/// The error of a host that is no valid TLS server name.
pub fn invalid_server_name() -> (e: ErrorCode)
    ensures
        e matches ErrorCode::DnsError { rcode: Some(r), info_code: Some(0) } && r@ == "invalid dns name"@,
{
    dns_error("invalid dns name")
}

/// The error of a response body or connection that failed while it was
/// read: a response timeout if it timed out, a protocol error otherwise.
pub fn read_error(is_timeout: bool) -> (e: ErrorCode)
    ensures
        e == if is_timeout {
            ErrorCode::HttpResponseTimeout
        } else {
            ErrorCode::HttpProtocolError
        },
{
    if is_timeout {
        ErrorCode::HttpResponseTimeout
    } else {
        ErrorCode::HttpProtocolError
    }
}

/// The request target HTTP/1.1 sends: the path and query alone, without
/// scheme or authority; `/` when there is none.
pub fn request_target(path_and_query: Option<&str>) -> (t: &str)
    ensures
        t@ == match path_and_query {
            Some(p) => p@,
            None => "/"@,
        },
{
    match path_and_query {
        Some(p) => p,
        None => "/",
    }
}

} // verus!
