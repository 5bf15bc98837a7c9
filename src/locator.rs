//! The client's target locator: scheme check, server-name identity, port,
//! and the choice of remote and local socket addresses.

use vstd::prelude::*;

verus! {

/// Drops every leading `[` of `s`.
pub open spec fn trim_open_brackets(s: Seq<char>) -> Seq<char>
    decreases s.len(),
{
    if s.len() > 0 && s[0] == '[' {
        trim_open_brackets(s.subrange(1, s.len() as int))
    } else {
        s
    }
}

/// Drops every trailing `]` of `s`.
pub open spec fn trim_close_brackets(s: Seq<char>) -> Seq<char>
    decreases s.len(),
{
    if s.len() > 0 && s[s.len() - 1] == ']' {
        trim_close_brackets(s.subrange(0, s.len() - 1))
    } else {
        s
    }
}

/// The TLS server-name identity for a locator host: the host with the
/// enclosing brackets of an IPv6 literal taken off.
pub open spec fn server_name_of(host: Seq<char>) -> Seq<char> {
    trim_close_brackets(trim_open_brackets(host))
}

/// The server-name identity presented in the handshake for the locator
/// host `host` (`[::1]` gives `::1`).
pub fn server_name(host: &str) -> (r: String)
    ensures
        r@ == server_name_of(host@),
{
    let n = host.unicode_len();
    let mut i: usize = 0;
    assert(host@.subrange(0, n as int) =~= host@);
    while i < n && host.get_char(i) == '['
        invariant
            n == host@.len(),
            i <= n,
            trim_open_brackets(host@) == trim_open_brackets(host@.subrange(i as int, n as int)),
        decreases n - i,
    {
        proof {
            let t = host@.subrange(i as int, n as int);
            assert(t.subrange(1, t.len() as int) =~= host@.subrange(i + 1, n as int));
        }
        i = i + 1;
    }
    assert(trim_open_brackets(host@.subrange(i as int, n as int)) == host@.subrange(i as int, n as int));
    let mut j: usize = n;
    while j > i && host.get_char(j - 1) == ']'
        invariant
            n == host@.len(),
            i <= j <= n,
            server_name_of(host@) == trim_close_brackets(host@.subrange(i as int, j as int)),
        decreases j - i,
    {
        proof {
            let t = host@.subrange(i as int, j as int);
            assert(t.subrange(0, t.len() - 1) =~= host@.subrange(i as int, j - 1));
        }
        j = j - 1;
    }
    let r = host.substring_char(i, j);
    r.to_string()
}


/// The scheme reserved for tunnel locators.
pub const TUNNEL_SCHEME: &'static str = "quic";

/// The port dialled when the locator names none.
pub const DEFAULT_PORT: u16 = 4433;

/// Why a locator cannot be turned into a dial target.
#[derive(Clone, Copy, Debug, PartialEq, Eq, Structural)]
pub enum LocatorError {
    /// The text is not a URL.
    Malformed,
    /// The URL's scheme is not the tunnel scheme.
    WrongScheme,
    /// The URL names no host, or its host resolved to no address.
    Unresolved,
}

impl LocatorError {
    /// A human-readable description of the error.
    pub fn message(&self) -> (r: &'static str) {
        match self {
            LocatorError::Malformed => "locator is not a valid URL",
            LocatorError::WrongScheme => "URL scheme must be quic",
            LocatorError::Unresolved => "Couldn't resolve to any address",
        }
    }
}

/// What the client dials: the server-name identity and the port.
#[derive(Debug)]
pub struct Target {
    /// The host with the brackets of an IPv6 literal taken off; it is both
    /// resolved and presented as the TLS server name.
    pub server_name: String,
    pub port: u16,
}

/// Whether `a` and `b` hold the same characters.
fn same_text(a: &str, b: &str) -> (r: bool)
    ensures
        r == (a@ == b@),
{
    let n = a.unicode_len();
    if n != b.unicode_len() {
        return false;
    }
    let mut i: usize = 0;
    while i < n
        invariant
            n == a@.len() == b@.len(),
            i <= n,
            forall|k: int| 0 <= k < i ==> a@[k] == b@[k],
        decreases n - i,
    {
        if a.get_char(i) != b.get_char(i) {
            return false;
        }
        i = i + 1;
    }
    assert(a@ =~= b@);
    true
}

/// The dial target for a URL already split into scheme, host and port.
/// The scheme must be the tunnel scheme and a host must be present; the
/// port defaults to `DEFAULT_PORT`.
pub fn target_from_parts(scheme: &str, host: Option<&str>, port: Option<u16>) -> (r: Result<
    Target,
    LocatorError,
>)
    ensures
        scheme@ != TUNNEL_SCHEME@ ==> r == Err::<Target, LocatorError>(LocatorError::WrongScheme),
        scheme@ == TUNNEL_SCHEME@ && host is None ==> r == Err::<Target, LocatorError>(
            LocatorError::Unresolved,
        ),
        scheme@ == TUNNEL_SCHEME@ && host is Some ==> r is Ok,
        r matches Ok(t) ==> t.server_name@ == server_name_of(host->Some_0@) && t.port == (
        match port {
            Some(p) => p,
            None => DEFAULT_PORT,
        }),
{
    if !same_text(scheme, TUNNEL_SCHEME) {
        return Err(LocatorError::WrongScheme);
    }
    match host {
        None => Err(LocatorError::Unresolved),
        Some(h) => {
            let p = match port {
                Some(p) => p,
                None => DEFAULT_PORT,
            };
            Ok(Target { server_name: server_name(h), port: p })
        },
    }
}

/// Whether `url::Url::parse` accepts `s`.
pub uninterp spec fn url_accepts(s: Seq<char>) -> bool;

/// The scheme that `url::Url::scheme` reports for the URL parsed from `s`.
pub uninterp spec fn url_scheme(s: Seq<char>) -> Seq<char>;

/// The host that `url::Url::host_str` reports for the URL parsed from `s`.
pub uninterp spec fn url_host(s: Seq<char>) -> Option<Seq<char>>;

/// The port that `url::Url::port` reports for the URL parsed from `s`.
pub uninterp spec fn url_port(s: Seq<char>) -> Option<u16>;

/// The characters of an optional string.
pub open spec fn opt_text(o: Option<String>) -> Option<Seq<char>> {
    match o {
        Some(s) => Some(s@),
        None => None,
    }
}

/// A URL split into the parts the target is built from.
struct UrlParts {
    pub scheme: String,
    pub host: Option<String>,
    pub port: Option<u16>,
}

/// Relies on url::Url::parse to parse `s`, and on its accessors
/// `scheme`, `host_str` and `port` to read the parts back. The host of an
/// IPv6 literal keeps its brackets.
#[verifier::external_body]
fn split_url(s: &str) -> (r: Option<UrlParts>)
    ensures
        r is Some <==> url_accepts(s@),
        r matches Some(p) ==> p.scheme@ == url_scheme(s@) && opt_text(p.host) == url_host(s@)
            && p.port == url_port(s@),
{
    match url::Url::parse(s) {
        Ok(u) => Some(UrlParts {
            scheme: u.scheme().to_string(),
            host: u.host_str().map(|h| h.to_string()),
            port: u.port(),
        }),
        Err(_) => None,
    }
}

/// The dial target named by the locator `locator`, a URL such as
/// `quic://example.com:4433` or `quic://[::1]`.
pub fn locate(locator: &str) -> (r: Result<Target, LocatorError>)
    ensures
        !url_accepts(locator@) ==> r == Err::<Target, LocatorError>(LocatorError::Malformed),
        url_accepts(locator@) && url_scheme(locator@) != TUNNEL_SCHEME@ ==> r == Err::<
            Target,
            LocatorError,
        >(LocatorError::WrongScheme),
        url_accepts(locator@) && url_scheme(locator@) == TUNNEL_SCHEME@ && url_host(
            locator@,
        ) is None ==> r == Err::<Target, LocatorError>(LocatorError::Unresolved),
        url_accepts(locator@) && url_scheme(locator@) == TUNNEL_SCHEME@ && url_host(
            locator@,
        ) is Some ==> r is Ok,
        r matches Ok(t) ==> t.server_name@ == server_name_of(url_host(locator@)->Some_0) && t.port
            == (match url_port(locator@) {
            Some(p) => p,
            None => DEFAULT_PORT,
        }),
{
    match split_url(locator) {
        None => Err(LocatorError::Malformed),
        Some(parts) => {
            let host = match &parts.host {
                Some(h) => Some(h.as_str()),
                None => None,
            };
            target_from_parts(parts.scheme.as_str(), host, parts.port)
        },
    }
}


/// An IP address: IPv4 as its 32 bits, IPv6 as its 128 bits.
#[derive(Clone, Copy, Debug, PartialEq, Eq, Structural)]
pub enum IpAddress {
    V4(u32),
    V6(u128),
}

/// An IP address and a port.
#[derive(Clone, Copy, Debug, PartialEq, Eq, Structural)]
pub struct SocketAddress {
    pub ip: IpAddress,
    pub port: u16,
}

/// The remote address dialled among those the target resolved to: the
/// first. Later candidates are not tried.
pub fn select_remote(candidates: &Vec<SocketAddress>) -> (r: Result<SocketAddress, LocatorError>)
    ensures
        candidates@.len() == 0 ==> r == Err::<SocketAddress, LocatorError>(
            LocatorError::Unresolved,
        ),
        candidates@.len() > 0 ==> r == Ok::<SocketAddress, LocatorError>(candidates@[0]),
{
    if candidates.len() == 0 {
        Err(LocatorError::Unresolved)
    } else {
        Ok(candidates[0])
    }
}

/// The unspecified address of `remote`'s family, port 0.
pub open spec fn any_address_like(remote: SocketAddress) -> SocketAddress {
    match remote.ip {
        IpAddress::V4(_) => SocketAddress { ip: IpAddress::V4(0), port: 0 },
        IpAddress::V6(_) => SocketAddress { ip: IpAddress::V6(0), port: 0 },
    }
}

/// The local address the client endpoint binds: the one asked for, else
/// the unspecified address of the remote's family with port 0.
pub fn bind_address(requested: Option<SocketAddress>, remote: SocketAddress) -> (r: SocketAddress)
    ensures
        r == (match requested {
            Some(a) => a,
            None => any_address_like(remote),
        }),
{
    match requested {
        Some(a) => a,
        None => match remote.ip {
            IpAddress::V4(_) => SocketAddress { ip: IpAddress::V4(0), port: 0 },
            IpAddress::V6(_) => SocketAddress { ip: IpAddress::V6(0), port: 0 },
        },
    }
}

} // verus!
