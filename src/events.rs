//! The log events that the engine sends to its observer, and the clock
//! reading they are stamped with.

use vstd::prelude::*;
use crate::text::{decimal, decimal_string, two_digit_string, two_digits};

verus! {

/// One observable event: a proxied response, a tunnel, or a change of the
/// server's state.
#[derive(Clone, Debug)]
pub struct LogEvent {
    pub time: String,
    pub method: String,
    pub protocol: String,
    pub url: String,
    pub status: String,
    pub status_code: i32,
}

/// A time of day in UTC, to the second.
#[derive(Clone, Copy, Debug, PartialEq, Eq, Structural)]
pub struct ClockTime {
    pub hour: u8,
    pub minute: u8,
    pub second: u8,
}

impl ClockTime {
    /// The fields name a real time of day.
    pub open spec fn wf(self) -> bool {
        self.hour < 24 && self.minute < 60 && self.second < 60
    }
}

#[verifier::external_type_specification]
#[verifier::external_body]
pub struct ExOffsetDateTime(time::OffsetDateTime);

/// Relies on `time::OffsetDateTime::now_utc`: the current instant in UTC.
/// Nothing is known of which instant that is.
pub assume_specification[ time::OffsetDateTime::now_utc ]() -> time::OffsetDateTime;

/// Relies on `time::OffsetDateTime::to_hms`: hour, minute and second of the
/// instant, each within its range (the crate stores them as bounded integers).
pub assume_specification[ time::OffsetDateTime::to_hms ](t: time::OffsetDateTime) -> (r: (u8, u8, u8))
    ensures
        r.0 < 24,
        r.1 < 60,
        r.2 < 60,
;

/// The reason phrase that the HTTP status registry gives `code`, if any.
pub uninterp spec fn canonical_reason_of(code: u16) -> Option<Seq<char>>;

/// Relies on `hyper::StatusCode::canonical_reason` (after `from_u16`, which
/// accepts every code from 100 to 999): the registered reason phrase of the
/// code; the phrase depends on the code alone.
#[verifier::external_body]
fn reason_phrase(code: u16) -> (r: Option<String>)
    requires
        100 <= code <= 999,
    ensures
        match r {
            Some(s) => canonical_reason_of(code) == Some(s@),
            None => canonical_reason_of(code) is None,
        },
{
    match hyper::StatusCode::from_u16(code) {
        Ok(status) => status.canonical_reason().map(String::from),
        Err(_) => None,
    }
}

/// `HH:MM:SS`, each part with two digits.
pub open spec fn clock_text(t: ClockTime) -> Seq<char> {
    two_digits(t.hour as nat) + ":"@ + two_digits(t.minute as nat) + ":"@ + two_digits(t.second as nat)
}

/// A status line as HTTP writes it: the code, a space, and the reason
/// phrase (or `<unknown status code>` where the code has none).
pub open spec fn status_text_spec(code: u16, reason: Option<Seq<char>>) -> Seq<char> {
    decimal(code as nat) + " "@ + match reason {
        Some(r) => r,
        None => "<unknown status code>"@,
    }
}

/// The URL text of the event that reports a listener on `port`.
pub open spec fn started_text(port: u16) -> Seq<char> {
    "Proxy server started on port "@ + decimal(port as nat)
}

/// The clock reading written as `HH:MM:SS`.
pub fn format_clock(t: ClockTime) -> (r: String)
    requires
        t.wf(),
    ensures
        r@ == clock_text(t),
{
    let h = two_digit_string(t.hour as u64);
    let m = two_digit_string(t.minute as u64);
    let s = two_digit_string(t.second as u64);
    h.concat(":").concat(m.as_str()).concat(":").concat(s.as_str())
}

/// The time of day now, in UTC.
pub fn clock_now() -> (r: ClockTime)
    ensures
        r.wf(),
{
    clock_at(time::OffsetDateTime::now_utc())
}

/// The time of day of the instant `t`.
pub(crate) fn clock_at(t: time::OffsetDateTime) -> (r: ClockTime)
    ensures
        r.wf(),
{
    let (hour, minute, second) = t.to_hms();
    ClockTime { hour, minute, second }
}

/// The status text of a response, from its code and reason phrase.
pub fn status_text(code: u16, reason: Option<String>) -> (r: String)
    ensures
        r@ == status_text_spec(
            code,
            match reason {
                Some(s) => Some(s@),
                None => None,
            },
        ),
{
    let digits = decimal_string(code as u64);
    let phrase = match reason {
        Some(s) => s,
        None => String::from_str("<unknown status code>"),
    };
    digits.concat(" ").concat(phrase.as_str())
}

/// The event for a forwarded request whose upstream answered with `code`.
pub fn response_event(at: ClockTime, method: String, protocol: String, url: String, code: u16) -> (r: LogEvent)
    requires
        at.wf(),
        100 <= code <= 999,
    ensures
        r.time@ == clock_text(at),
        r.method@ == method@,
        r.protocol@ == protocol@,
        r.url@ == url@,
        r.status@ == status_text_spec(code, canonical_reason_of(code)),
        r.status_code == code as i32,
{
    let reason = reason_phrase(code);
    LogEvent {
        time: format_clock(at),
        method,
        protocol,
        url,
        status: status_text(code, reason),
        status_code: code as i32,
    }
}

/// The event for a `CONNECT` tunnel, sent once the tunnel has closed.
pub fn tunnel_event(at: ClockTime, method: String, url: String) -> (r: LogEvent)
    requires
        at.wf(),
    ensures
        r.time@ == clock_text(at),
        r.method@ == method@,
        r.protocol@ == "HTTPS"@,
        r.url@ == url@,
        r.status@ == "Tunnel Established"@,
        r.status_code == 200,
{
    LogEvent {
        time: format_clock(at),
        method,
        protocol: String::from_str("HTTPS"),
        url,
        status: String::from_str("Tunnel Established"),
        status_code: 200,
    }
}

/// The event for a listener that has started on `port`.
pub fn listener_started_event(at: ClockTime, port: u16) -> (r: LogEvent)
    requires
        at.wf(),
    ensures
        r.time@ == clock_text(at),
        r.method@ == "SYSTEM"@,
        r.protocol@ == "SYSTEM"@,
        r.url@ == started_text(port),
        r.status@ == "OK"@,
        r.status_code == 200,
{
    let digits = decimal_string(port as u64);
    LogEvent {
        time: format_clock(at),
        method: String::from_str("SYSTEM"),
        protocol: String::from_str("SYSTEM"),
        url: String::from_str("Proxy server started on port ").concat(digits.as_str()),
        status: String::from_str("OK"),
        status_code: 200,
    }
}

/// The event for a server whose listeners are stopping.
pub fn server_stopped_event(at: ClockTime) -> (r: LogEvent)
    requires
        at.wf(),
    ensures
        r.time@ == clock_text(at),
        r.method@ == "SYSTEM"@,
        r.protocol@ == "SYSTEM"@,
        r.url@ == "Proxy server stopped"@,
        r.status@ == "OK"@,
        r.status_code == 200,
{
    LogEvent {
        time: format_clock(at),
        method: String::from_str("SYSTEM"),
        protocol: String::from_str("SYSTEM"),
        url: String::from_str("Proxy server stopped"),
        status: String::from_str("OK"),
        status_code: 200,
    }
}

/// How a `CONNECT` tunnel ended.
#[derive(Clone, Copy, Debug, PartialEq, Eq, Structural)]
pub enum TunnelOutcome {
    /// The client connection was never handed over for relaying.
    UpgradeFailed,
    /// Bytes were relayed until one side closed.
    Closed,
    /// Connecting to the upstream or relaying failed.
    RelayFailed,
}

/// The event to send once a tunnel has ended: one tunnel event whenever the
/// relay was attempted, whether or not it failed, and none when the client
/// connection was never handed over.
pub fn tunnel_log(outcome: TunnelOutcome, at: ClockTime, method: String, url: String) -> (r: Option<LogEvent>)
    requires
        at.wf(),
    ensures
        outcome is UpgradeFailed <==> r is None,
        r matches Some(e) ==> {
            &&& e.time@ == clock_text(at)
            &&& e.method@ == method@
            &&& e.protocol@ == "HTTPS"@
            &&& e.url@ == url@
            &&& e.status@ == "Tunnel Established"@
            &&& e.status_code == 200
        },
{
    match outcome {
        TunnelOutcome::UpgradeFailed => None,
        _ => Some(tunnel_event(at, method, url)),
    }
}

} // verus!
