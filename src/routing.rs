//! Per-request decisions of the connection handler: which host a request
//! is for, whether a rule redirects it, and where it is tunnelled or
//! forwarded to.

use vstd::prelude::*;
use crate::rules::{lookup_spec, RuleTable};
use crate::text::{before_first, decimal, decimal_string, has_char, holds_char, prefix_before};

verus! {

/// What the handler reads of one request, as plain values.
pub struct RequestHead {
    /// The request method, as written (`GET`, `CONNECT`, ...).
    pub method: String,
    /// The request target, as written.
    pub uri: String,
    /// The protocol version, for logging.
    pub version: String,
    /// The host of the request target, when the target names one.
    pub uri_host: Option<String>,
    /// The port of the request target, when the target names one.
    pub uri_port: Option<u16>,
    /// The authority (`host:port`) of the request target, when it has one.
    pub uri_authority: Option<String>,
    /// The value of the `Host` header, when present and readable as text.
    pub host_header: Option<String>,
}

/// Why a request is answered with `400 Bad Request`.
#[derive(Clone, Copy, Debug, PartialEq, Eq, Structural)]
pub enum Rejection {
    /// A `CONNECT` whose target gives no address to tunnel to.
    NotSocketAddress,
    /// A forwarded request whose upstream address cannot be determined.
    MissingHost,
}

/// What the handler does with one request.
pub enum Dispatch {
    /// Answer `200` at once, then relay bytes to `addr`.
    Tunnel { addr: String },
    /// Forward the request to the upstream at `addr`.
    Forward { addr: String },
    /// Answer `400 Bad Request`.
    Reject(Rejection),
}

/// The mathematical form of a `Dispatch`.
pub enum Route {
    Tunnel(Seq<char>),
    Forward(Seq<char>),
    Reject(Rejection),
}

impl View for Dispatch {
    type V = Route;

    open spec fn view(&self) -> Route {
        match self {
            Dispatch::Tunnel { addr } => Route::Tunnel(addr@),
            Dispatch::Forward { addr } => Route::Forward(addr@),
            Dispatch::Reject(why) => Route::Reject(*why),
        }
    }
}

/// The method is `CONNECT`.
pub open spec fn is_connect(head: RequestHead) -> bool {
    head.method@ == "CONNECT"@
}

/// The host a request is for: the target's host, else the `Host` header
/// without its port.
pub open spec fn effective_host(head: RequestHead) -> Option<Seq<char>> {
    match head.uri_host {
        Some(h) => Some(h@),
        None => match head.host_header {
            Some(v) => Some(before_first(v@, ':')),
            None => None,
        },
    }
}

/// The address that a rule redirects the request to, if any.
pub open spec fn override_address(rules: Seq<crate::rules::Rule>, head: RequestHead) -> Option<Seq<char>> {
    match effective_host(head) {
        Some(host) => lookup_spec(rules, host),
        None => None,
    }
}

/// Where a request that is not a `CONNECT` goes when no rule redirects it:
/// the target's host and port (80 by default), else the `Host` header with
/// port 80 added when it names none; empty when neither is there.
pub open spec fn upstream_address(head: RequestHead) -> Seq<char> {
    match head.uri_host {
        Some(h) => {
            let port: nat = match head.uri_port {
                Some(p) => p as nat,
                None => 80,
            };
            h@ + ":"@ + decimal(port)
        },
        None => match head.host_header {
            Some(v) => if holds_char(v@, ':') { v@ } else { v@ + ":80"@ },
            None => Seq::empty(),
        },
    }
}

/// What the handler does with `head` under the rules `rules`.
pub open spec fn route_spec(rules: Seq<crate::rules::Rule>, head: RequestHead) -> Route {
    let ov = override_address(rules, head);
    if is_connect(head) {
        match ov {
            Some(a) => Route::Tunnel(a),
            None => match head.uri_authority {
                Some(a) => Route::Tunnel(a@),
                None => Route::Reject(Rejection::NotSocketAddress),
            },
        }
    } else {
        let addr = match ov {
            Some(a) => a,
            None => upstream_address(head),
        };
        if addr.len() == 0 {
            Route::Reject(Rejection::MissingHost)
        } else {
            Route::Forward(addr)
        }
    }
}

/// The host a request is for (see `effective_host`).
pub fn request_host(head: &RequestHead) -> (r: Option<String>)
    ensures
        r matches Some(h) ==> effective_host(*head) == Some(h@),
        r is None ==> effective_host(*head) is None,
{
    match &head.uri_host {
        Some(h) => Some(h.clone()),
        None => match &head.host_header {
            Some(v) => Some(prefix_before(v.as_str(), ':')),
            None => None,
        },
    }
}

/// The upstream of a forwarded request that no rule redirects (see
/// `upstream_address`).
pub fn forward_address(head: &RequestHead) -> (r: String)
    ensures
        r@ == upstream_address(*head),
{
    match &head.uri_host {
        Some(h) => {
            let port: u16 = match head.uri_port {
                Some(p) => p,
                None => 80,
            };
            let digits = decimal_string(port as u64);
            h.clone().concat(":").concat(digits.as_str())
        },
        None => match &head.host_header {
            Some(v) => {
                if has_char(v.as_str(), ':') {
                    v.clone()
                } else {
                    v.clone().concat(":80")
                }
            },
            None => String::new(),
        },
    }
}

/// Decides what to do with one request, consulting `table` for a redirect.
pub fn route(head: &RequestHead, table: &RuleTable) -> (r: Dispatch)
    ensures
        r@ == route_spec(table@, *head),
{
    let ov: Option<String> = match request_host(head) {
        Some(host) => table.lookup(host.as_str()),
        None => None,
    };
    let connect = head.method == String::from_str("CONNECT");
    if connect {
        match ov {
            Some(a) => Dispatch::Tunnel { addr: a },
            None => match &head.uri_authority {
                Some(a) => Dispatch::Tunnel { addr: a.clone() },
                None => Dispatch::Reject(Rejection::NotSocketAddress),
            },
        }
    } else {
        let addr = match ov {
            Some(a) => a,
            None => forward_address(head),
        };
        if addr.as_str().is_empty() {
            Dispatch::Reject(Rejection::MissingHost)
        } else {
            Dispatch::Forward { addr }
        }
    }
}

/// A response that the handler writes itself: a status code and a text body.
pub struct Reply {
    pub status: u16,
    pub body: String,
}

/// The body of the answer to a rejected request.
pub open spec fn rejection_text(why: Rejection) -> Seq<char> {
    match why {
        Rejection::NotSocketAddress => "CONNECT must be to a socket address"@,
        Rejection::MissingHost => "Missing Host"@,
    }
}

/// The body of the answer to a request whose upstream could not be reached.
pub open spec fn connect_failure_text(err: Seq<char>) -> Seq<char> {
    "Error connecting to upstream: "@ + err
}

impl Rejection {
    /// The answer to a rejected request: `400 Bad Request` with the reason.
    pub fn reply(&self) -> (r: Reply)
        ensures
            r.status == 400,
            r.body@ == rejection_text(*self),
    {
        let body = match self {
            Rejection::NotSocketAddress => String::from_str("CONNECT must be to a socket address"),
            Rejection::MissingHost => String::from_str("Missing Host"),
        };
        Reply { status: 400, body }
    }
}

/// The answer to a forwarded request whose upstream refused or failed the
/// connection: `502 Bad Gateway`, naming the error.
pub fn connect_failure_reply(err: &str) -> (r: Reply)
    ensures
        r.status == 502,
        r.body@ == connect_failure_text(err@),
{
    Reply { status: 502, body: String::from_str("Error connecting to upstream: ").concat(err) }
}

} // verus!
