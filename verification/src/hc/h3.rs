//! Where the signal server of a configured address is.
use vstd::prelude::*;
use vstd::string::*;

use crate::hc::request::{
    uri_host, uri_host_part, uri_port, uri_port_part, uri_scheme, uri_scheme_part,
};
use crate::proto::settings::with_scheme;
use crate::text::{concat2, concat3, decimal, starts_with, u64_to_decimal};

verus! {

/// The signal server's address for a server reached by `scheme`, `host` and
/// `port` (0 when none is given): the port is written unless it is 0, 80 or
/// 443.
pub open spec fn signal_address(scheme: Seq<char>, host: Seq<char>, port: u16) -> Seq<char> {
    if port > 0 && port != 80 && port != 443 {
        scheme + "://"@ + host + ":"@ + decimal(port as nat) + "/api/v4/p2p/signal"@
    } else {
        scheme + "://"@ + host + "/api/v4/p2p/signal"@
    }
}

/// The signal server's address for the configured address `addr` (with
/// `https://` in front unless it starts with `http`): `None` when that does
/// not parse as a URI. A missing scheme reads as `https`, a missing host as
/// empty, a missing port as 0.
pub open spec fn signal_url_of(addr: Seq<char>) -> Option<Seq<char>> {
    let u = with_scheme(addr);
    match (uri_scheme_part(u), uri_host_part(u), uri_port_part(u)) {
        (Some(sc), Some(h), Some(p)) => Some(
            signal_address(
                match sc {
                    Some(t) => t,
                    None => "https"@,
                },
                match h {
                    Some(t) => t,
                    None => Seq::<char>::empty(),
                },
                match p {
                    Some(n) => n,
                    None => 0,
                },
            ),
        ),
        _ => None,
    }
}

/// The signal server's address for the configured address `addr`; on a URI
/// that does not parse, the parser's error text.
pub fn signal_url(addr: &str) -> (r: Result<String, String>)
    ensures
        r is Ok <==> signal_url_of(addr@) is Some,
        r matches Ok(u) ==> signal_url_of(addr@) == Some(u@),
{
    proof {
        reveal_strlit("http");
        reveal_strlit("https://");
    }
    let uri = if starts_with(addr, "http") {
        String::from_str(addr)
    } else {
        concat2("https://", addr)
    };
    assert(uri@ == with_scheme(addr@));
    let host = match uri_host(uri.as_str()) {
        Ok(Some(h)) => h,
        Ok(None) => String::new(),
        Err(t) => return Err(t),
    };
    let port: u16 = match uri_port(uri.as_str()) {
        Some(Some(p)) => p,
        Some(None) => 0,
        None => return Err(String::new()),
    };
    let scheme = match uri_scheme(uri.as_str()) {
        Some(Some(t)) => t,
        Some(None) => String::from_str("https"),
        None => return Err(String::new()),
    };
    let head = concat3(scheme.as_str(), "://", host.as_str());
    let r = if port > 0 && port != 80 && port != 443 {
        let p = u64_to_decimal(port as u64);
        let with_port = concat3(head.as_str(), ":", p.as_str());
        concat2(with_port.as_str(), "/api/v4/p2p/signal")
    } else {
        concat2(head.as_str(), "/api/v4/p2p/signal")
    };
    proof {
        reveal_strlit("https");
    }
    assert(r@ =~= signal_address(scheme@, host@, port));
    Ok(r)
}

} // verus!
