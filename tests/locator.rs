use quicssh::locator::{
    bind_address, locate, select_remote, server_name, target_from_parts, IpAddress,
    LocatorError, SocketAddress, DEFAULT_PORT,
};

#[test]
fn server_name_strips_ipv6_brackets() {
    assert_eq!(server_name("[::1]"), "::1");
}

#[test]
fn server_name_keeps_plain_host() {
    assert_eq!(server_name("example.com"), "example.com");
    assert_eq!(server_name(""), "");
}

#[test]
fn server_name_strips_repeated_brackets_only_at_the_ends() {
    assert_eq!(server_name("[[a[b]c]]"), "a[b]c");
    assert_eq!(server_name("[]"), "");
    assert_eq!(server_name("]x["), "]x[");
}

#[test]
fn parts_with_wrong_scheme_are_refused() {
    let r = target_from_parts("https", Some("example.com"), Some(443));
    assert_eq!(r.unwrap_err(), LocatorError::WrongScheme);
}

#[test]
fn parts_without_host_are_unresolved() {
    let r = target_from_parts("quic", None, None);
    assert_eq!(r.unwrap_err(), LocatorError::Unresolved);
}

#[test]
fn parts_take_default_port() {
    let t = target_from_parts("quic", Some("[::1]"), None).unwrap();
    assert_eq!(t.server_name, "::1");
    assert_eq!(t.port, 4433);
    assert_eq!(DEFAULT_PORT, 4433);
}

#[test]
fn parts_keep_explicit_port() {
    let t = target_from_parts("quic", Some("host.example"), Some(2222)).unwrap();
    assert_eq!(t.server_name, "host.example");
    assert_eq!(t.port, 2222);
}

#[test]
fn locate_ipv6_literal_gives_bare_server_name() {
    let t = locate("quic://[::1]").unwrap();
    assert_eq!(t.server_name, "::1");
    assert_eq!(t.port, 4433);
}

#[test]
fn locate_reads_host_and_port() {
    let t = locate("quic://example.com:5000").unwrap();
    assert_eq!(t.server_name, "example.com");
    assert_eq!(t.port, 5000);
}

#[test]
fn locate_refuses_other_schemes() {
    assert_eq!(locate("https://example.com").unwrap_err(), LocatorError::WrongScheme);
}

#[test]
fn locate_refuses_malformed_text() {
    assert_eq!(locate("no scheme here").unwrap_err(), LocatorError::Malformed);
}

#[test]
fn locate_without_host_is_unresolved() {
    assert_eq!(locate("quic:path-only").unwrap_err(), LocatorError::Unresolved);
}

#[test]
fn error_messages() {
    assert_eq!(LocatorError::WrongScheme.message(), "URL scheme must be quic");
    assert_eq!(LocatorError::Unresolved.message(), "Couldn't resolve to any address");
    assert!(!LocatorError::Malformed.message().is_empty());
}

#[test]
fn select_remote_takes_first_candidate() {
    let a = SocketAddress { ip: IpAddress::V6(1), port: 4433 };
    let b = SocketAddress { ip: IpAddress::V4(0x7f00_0001), port: 4433 };
    assert_eq!(select_remote(&vec![a, b]), Ok(a));
}

#[test]
fn select_remote_with_no_candidate_fails() {
    assert_eq!(select_remote(&vec![]), Err(LocatorError::Unresolved));
}

#[test]
fn bind_address_follows_remote_family() {
    let v6 = SocketAddress { ip: IpAddress::V6(1), port: 4433 };
    let v4 = SocketAddress { ip: IpAddress::V4(0x7f00_0001), port: 4433 };
    assert_eq!(bind_address(None, v6), SocketAddress { ip: IpAddress::V6(0), port: 0 });
    assert_eq!(bind_address(None, v4), SocketAddress { ip: IpAddress::V4(0), port: 0 });
}

#[test]
fn bind_address_keeps_requested_address() {
    let want = SocketAddress { ip: IpAddress::V4(0x0a00_0001), port: 5555 };
    let v6 = SocketAddress { ip: IpAddress::V6(1), port: 4433 };
    assert_eq!(bind_address(Some(want), v6), want);
}
