//! How the client reaches its server: the network mode, the configured
//! addresses, and the address, protocol version and client kind they select.
use vstd::prelude::*;
use vstd::string::*;

use crate::text::{concat2, concat3, has_prefix, starts_with, str_eq};

verus! {

/// How the client reaches the server.
#[derive(Debug, Clone, Copy, PartialEq, Eq, Structural)]
pub enum NetworkMode {
    Auto,
    Normal,
    IPv6,
    P2P,
}

/// The mode that the stored text `s` stands for; anything unknown is `Auto`.
pub open spec fn mode_from_code(s: Seq<char>) -> NetworkMode {
    if s == "2"@ {
        NetworkMode::Normal
    } else if s == "3"@ {
        NetworkMode::IPv6
    } else if s == "4"@ {
        NetworkMode::P2P
    } else {
        NetworkMode::Auto
    }
}

/// The text a mode is stored and shown as.
pub open spec fn mode_code(m: NetworkMode) -> Seq<char> {
    match m {
        NetworkMode::P2P => "4"@,
        NetworkMode::IPv6 => "3"@,
        NetworkMode::Normal => "2"@,
        NetworkMode::Auto => "1"@,
    }
}

impl NetworkMode {
    /// The mode the text `s` stands for (`"2"`, `"3"`, `"4"`); any other text
    /// stands for `Auto`. Parsing never fails.
    pub fn from_code(s: &str) -> (r: NetworkMode)
        ensures
            r == mode_from_code(s@),
    {
        proof {
            reveal_strlit("2");
            reveal_strlit("3");
            reveal_strlit("4");
        }
        if str_eq(s, "2") {
            NetworkMode::Normal
        } else if str_eq(s, "3") {
            NetworkMode::IPv6
        } else if str_eq(s, "4") {
            NetworkMode::P2P
        } else {
            NetworkMode::Auto
        }
    }

    /// The text this mode is stored and shown as.
    pub fn code(&self) -> (r: String)
        ensures
            r@ == mode_code(*self),
    {
        match self {
            NetworkMode::P2P => String::from_str("4"),
            NetworkMode::IPv6 => String::from_str("3"),
            NetworkMode::Normal => String::from_str("2"),
            NetworkMode::Auto => String::from_str("1"),
        }
    }
}

/// The HTTP version a network mode talks.
#[derive(Debug, Clone, Copy, PartialEq, Eq, Structural)]
pub enum HttpVersion {
    Http11,
    Http2,
    Http3,
}

/// Which kind of HTTP client carries the requests.
#[derive(Debug, Clone, Copy, PartialEq, Eq, Structural)]
pub enum ClientType {
    Iroh,
    Reqwest,
}

/// The configured ways of reaching the server.
#[derive(Debug, Clone)]
pub struct NetworkSettings {
    pub addr: String,
    pub addr6: String,
    pub iroh_endpoint: String,
    pub mode: NetworkMode,
}

/// The address a P2P connection is made to when none is configured.
pub open spec fn default_p2p_addr() -> Seq<char> {
    "iroh://p2p"@
}

/// `a` as an HTTP address: unchanged when it already starts with `http`,
/// otherwise with `https://` in front.
pub open spec fn with_scheme(a: Seq<char>) -> Seq<char> {
    if has_prefix(a, "http"@) {
        a
    } else {
        "https://"@ + a
    }
}

impl NetworkSettings {
    /// The configured HTTP address the mode selects: the IPv6 address in
    /// `IPv6` mode, and in `Auto` mode when the device can reach IPv6; the
    /// plain address otherwise or when no IPv6 address is configured.
    pub open spec fn selected_http_addr(self, ipv6_reachable: bool) -> Seq<char> {
        if self.addr6@.len() > 0 && (self.mode == NetworkMode::IPv6 || (self.mode
            == NetworkMode::Auto && ipv6_reachable)) {
            self.addr6@
        } else {
            self.addr@
        }
    }

    /// The address requests go to.
    pub open spec fn spec_addr(self, ipv6_reachable: bool) -> Seq<char> {
        if self.mode == NetworkMode::P2P {
            if self.iroh_endpoint@.len() > 0 {
                self.iroh_endpoint@
            } else if self.addr@.len() > 0 {
                self.addr@
            } else {
                default_p2p_addr()
            }
        } else {
            with_scheme(self.selected_http_addr(ipv6_reachable))
        }
    }

    /// The HTTP version of the mode: HTTP/3 for P2P, HTTP/2 for IPv6, HTTP/1.1
    /// otherwise.
    pub fn get_http_version(&self) -> (r: HttpVersion)
        ensures
            r == (match self.mode {
                NetworkMode::P2P => HttpVersion::Http3,
                NetworkMode::IPv6 => HttpVersion::Http2,
                _ => HttpVersion::Http11,
            }),
    {
        match self.mode {
            NetworkMode::P2P => HttpVersion::Http3,
            NetworkMode::IPv6 => HttpVersion::Http2,
            _ => HttpVersion::Http11,
        }
    }

    /// The configured HTTP address the mode selects, before any scheme is
    /// added; `ipv6_reachable` tells whether the device has a usable IPv6
    /// address.
    pub fn select_http_addr(&self, ipv6_reachable: bool) -> (r: &String)
        ensures
            r@ == self.selected_http_addr(ipv6_reachable),
    {
        if !self.addr6.as_str().is_empty() {
            match self.mode {
                NetworkMode::IPv6 => &self.addr6,
                NetworkMode::Auto => {
                    if ipv6_reachable {
                        &self.addr6
                    } else {
                        &self.addr
                    }
                },
                _ => &self.addr,
            }
        } else {
            &self.addr
        }
    }

    /// The address requests go to. In P2P mode: the Iroh endpoint, else the
    /// plain address, else `iroh://p2p`. Otherwise the selected HTTP address,
    /// with `https://` in front unless it already starts with `http`.
    pub fn get_addr(&self, ipv6_reachable: bool) -> (r: String)
        ensures
            r@ == self.spec_addr(ipv6_reachable),
    {
        proof {
            reveal_strlit("iroh://p2p");
            reveal_strlit("https://");
            reveal_strlit("http");
        }
        if self.mode == NetworkMode::P2P {
            if !self.iroh_endpoint.as_str().is_empty() {
                return self.iroh_endpoint.clone();
            }
            if !self.addr.as_str().is_empty() {
                return self.addr.clone();
            }
            return String::from_str("iroh://p2p");
        }
        let selected = self.select_http_addr(ipv6_reachable);
        if starts_with(selected.as_str(), "http") {
            return selected.clone();
        }
        concat2("https://", selected.as_str())
    }

    /// The API address of `path`, on `addr` when one is given and on the
    /// selected address otherwise.
    pub fn get_url(&self, addr: Option<String>, path: &str, ipv6_reachable: bool) -> (r: String)
        ensures
            r@ == (match addr {
                Some(a) => a@,
                None => self.spec_addr(ipv6_reachable),
            }) + "/api/v4"@ + path@,
    {
        match addr {
            Some(a) => concat3(a.as_str(), "/api/v4", path),
            None => {
                let a = self.get_addr(ipv6_reachable);
                concat3(a.as_str(), "/api/v4", path)
            },
        }
    }

    /// The API address of `path` with the form-encoded query `query`, on
    /// `addr` when one is given and on the selected address otherwise.
    pub fn get_query(&self, addr: Option<String>, path: &str, query: &str, ipv6_reachable: bool) -> (r:
        String)
        ensures
            r@ == (match addr {
                Some(a) => a@,
                None => self.spec_addr(ipv6_reachable),
            }) + "/api/v4/"@ + path@ + "?"@ + query@,
    {
        let a = match addr {
            Some(a) => a,
            None => self.get_addr(ipv6_reachable),
        };
        let r = concat3(a.as_str(), "/api/v4/", path);
        let r = r.concat("?");
        r.concat(query)
    }

    /// The client kind that serves the configured server: Iroh in P2P mode
    /// when a real endpoint address is configured, the plain HTTP client
    /// otherwise.
    pub fn client_type(&self, ipv6_reachable: bool) -> (r: ClientType)
        ensures
            r == (if self.mode == NetworkMode::P2P && self.spec_addr(ipv6_reachable)
                != default_p2p_addr() {
                ClientType::Iroh
            } else {
                ClientType::Reqwest
            }),
    {
        match self.mode {
            NetworkMode::P2P => {
                let addr = self.get_addr(ipv6_reachable);
                if !str_eq(addr.as_str(), "iroh://p2p") {
                    ClientType::Iroh
                } else {
                    ClientType::Reqwest
                }
            },
            _ => ClientType::Reqwest,
        }
    }

    /// The client kind that proxies the user interface's own requests: Iroh
    /// in P2P mode, the plain HTTP client otherwise.
    pub fn proxy_client_type(&self) -> (r: ClientType)
        ensures
            r == (if self.mode == NetworkMode::P2P {
                ClientType::Iroh
            } else {
                ClientType::Reqwest
            }),
    {
        if self.mode == NetworkMode::P2P {
            ClientType::Iroh
        } else {
            ClientType::Reqwest
        }
    }
}

} // verus!
