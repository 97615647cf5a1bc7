use component_cli::http_client::{
    connect_address, connect_error, dns_error, invalid_server_name, read_error, request_target,
    timeout_or_default, ConnectOutcome, ErrorCode, DEFAULT_TIMEOUT_MS,
};

#[test]
fn default_ports_follow_the_scheme() {
    assert_eq!(connect_address("example.com", false, true), "example.com:443");
    assert_eq!(connect_address("example.com", false, false), "example.com:80");
    assert_eq!(connect_address("example.com:8443", true, true), "example.com:8443");
}

#[test]
fn timeouts_default_to_ten_minutes() {
    assert_eq!(timeout_or_default(None), 600_000);
    assert_eq!(DEFAULT_TIMEOUT_MS, 10 * 60 * 1000);
    assert_eq!(timeout_or_default(Some(250)), 250);
}

#[test]
fn connect_failures_are_classified() {
    let address_gone = dns_error("address not available");
    assert_eq!(connect_error(&ConnectOutcome::Connected), None);
    assert_eq!(connect_error(&ConnectOutcome::TimedOut), Some(ErrorCode::ConnectionTimeout));
    assert_eq!(
        connect_error(&ConnectOutcome::Failed { addr_not_available: true, message: "x".into() }),
        Some(address_gone.clone_code())
    );
    assert_eq!(
        connect_error(&ConnectOutcome::Failed {
            addr_not_available: false,
            message: "failed to lookup address information: Name or service not known".into(),
        }),
        Some(ErrorCode::DnsError { rcode: Some("address not available".into()), info_code: Some(0) })
    );
    assert_eq!(
        connect_error(&ConnectOutcome::Failed { addr_not_available: false, message: "Connection refused".into() }),
        Some(ErrorCode::ConnectionRefused)
    );
}

trait CloneCode {
    fn clone_code(&self) -> ErrorCode;
}

impl CloneCode for ErrorCode {
    fn clone_code(&self) -> ErrorCode {
        match self {
            ErrorCode::DnsError { rcode, info_code } => ErrorCode::DnsError { rcode: rcode.clone(), info_code: *info_code },
            _ => panic!("only DNS errors are cloned here"),
        }
    }
}

#[test]
fn server_names_and_read_errors() {
    assert_eq!(
        invalid_server_name(),
        ErrorCode::DnsError { rcode: Some("invalid dns name".into()), info_code: Some(0) }
    );
    assert_eq!(read_error(true), ErrorCode::HttpResponseTimeout);
    assert_eq!(read_error(false), ErrorCode::HttpProtocolError);
}

#[test]
fn http1_sends_only_path_and_query() {
    assert_eq!(request_target(Some("/api?q=1")), "/api?q=1");
    assert_eq!(request_target(None), "/");
}
