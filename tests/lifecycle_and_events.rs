use oriv_proxy::events::{
    clock_now, format_clock, listener_started_event, response_event, server_stopped_event, status_text,
    tunnel_event, tunnel_log, ClockTime, TunnelOutcome,
};
use oriv_proxy::lifecycle::{accept_step, listen_ports, AcceptAction, AcceptEvent, Generations, StartPlan, StartupError};
use oriv_proxy::text::{decimal_string, is_all_digits, prefix_before};

#[test]
fn start_with_no_ports_fails() {
    match listen_ports(&vec![]) {
        Err(e) => {
            assert!(matches!(e, StartupError::NoPorts));
            assert_eq!(e.message(), "No proxy ports provided");
        }
        Ok(_) => panic!("expected NoPorts"),
    }
}

#[test]
fn duplicate_ports_bind_once() {
    match listen_ports(&vec![8080, 8080, 8081]) {
        Ok(ports) => assert_eq!(ports, vec![8080, 8081]),
        Err(_) => panic!("expected two ports"),
    }
    match listen_ports(&vec![9000, 80, 9000, 443, 80]) {
        Ok(ports) => assert_eq!(ports, vec![80, 443, 9000]),
        Err(_) => panic!("expected three ports"),
    }
    match listen_ports(&vec![0, 65535]) {
        Ok(ports) => assert_eq!(ports, vec![0, 65535]),
        Err(_) => panic!("expected two ports"),
    }
}

#[test]
fn bind_error_keeps_reason() {
    let e = StartupError::Bind { port: 8080, reason: "Address already in use".to_string() };
    assert_eq!(e.message(), "Address already in use");
}

#[test]
fn start_supersedes_previous_generation() {
    let mut g = Generations::new();
    assert!(!g.is_active());
    assert!(!g.begin());
    assert!(g.is_active());
    assert!(g.begin());
    assert!(g.is_active());
    assert_eq!(accept_step(AcceptEvent::Signal(true)), AcceptAction::Exit);
}

#[test]
fn stop_ends_current_generation_once() {
    let mut g = Generations::new();
    assert!(!g.stop());
    g.begin();
    assert!(g.stop());
    assert!(!g.is_active());
    assert!(!g.stop());
    assert!(!g.begin());
}

#[test]
fn accept_loop_reactions() {
    assert_eq!(accept_step(AcceptEvent::Signal(true)), AcceptAction::Exit);
    assert_eq!(accept_step(AcceptEvent::Signal(false)), AcceptAction::Continue);
    assert_eq!(accept_step(AcceptEvent::SignalGone), AcceptAction::Exit);
    assert_eq!(accept_step(AcceptEvent::Connection), AcceptAction::Serve);
    assert_eq!(accept_step(AcceptEvent::AcceptError), AcceptAction::Continue);
}

#[test]
fn clock_is_two_digit_fields() {
    assert_eq!(format_clock(ClockTime { hour: 9, minute: 5, second: 0 }), "09:05:00");
    assert_eq!(format_clock(ClockTime { hour: 23, minute: 59, second: 59 }), "23:59:59");
    let now = clock_now();
    let text = format_clock(now);
    assert_eq!(text.len(), 8);
    assert!(now.hour < 24 && now.minute < 60 && now.second < 60);
}

#[test]
fn tunnel_event_after_close() {
    let at = ClockTime { hour: 12, minute: 0, second: 1 };
    let e = tunnel_event(at, "CONNECT".to_string(), "example.com:443".to_string());
    assert_eq!(e.time, "12:00:01");
    assert_eq!(e.method, "CONNECT");
    assert_eq!(e.protocol, "HTTPS");
    assert_eq!(e.url, "example.com:443");
    assert_eq!(e.status, "Tunnel Established");
    assert_eq!(e.status_code, 200);
}

#[test]
fn response_event_carries_status_line() {
    let at = ClockTime { hour: 1, minute: 2, second: 3 };
    let e = response_event(at, "GET".to_string(), "HTTP/1.1".to_string(), "http://a.test/".to_string(), 404);
    assert_eq!(e.status, "404 Not Found");
    assert_eq!(e.status_code, 404);
    assert_eq!(e.time, "01:02:03");
    let ok = response_event(at, "GET".to_string(), "HTTP/1.1".to_string(), "/".to_string(), 200);
    assert_eq!(ok.status, "200 OK");
    let odd = response_event(at, "GET".to_string(), "HTTP/1.1".to_string(), "/".to_string(), 799);
    assert_eq!(odd.status, "799 <unknown status code>");
}

#[test]
fn status_text_from_parts() {
    assert_eq!(status_text(502, Some("Bad Gateway".to_string())), "502 Bad Gateway");
    assert_eq!(status_text(123, None), "123 <unknown status code>");
}

#[test]
fn system_events() {
    let at = ClockTime { hour: 0, minute: 0, second: 0 };
    let s = listener_started_event(at, 8080);
    assert_eq!(s.url, "Proxy server started on port 8080");
    assert_eq!(s.method, "SYSTEM");
    assert_eq!(s.protocol, "SYSTEM");
    assert_eq!(s.status, "OK");
    assert_eq!(s.status_code, 200);
    let t = server_stopped_event(at);
    assert_eq!(t.url, "Proxy server stopped");
    assert_eq!(t.time, "00:00:00");
}

#[test]
fn text_helpers() {
    assert_eq!(decimal_string(0), "0");
    assert_eq!(decimal_string(65535), "65535");
    assert_eq!(decimal_string(u64::MAX), u64::MAX.to_string());
    assert!(is_all_digits("0123456789"));
    assert!(is_all_digits(""));
    assert!(!is_all_digits("12:3"));
    assert_eq!(prefix_before("host:8080", ':'), "host");
    assert_eq!(prefix_before("host", ':'), "host");
    assert_eq!(prefix_before("a:b:c", ':'), "a");
}

#[test]
fn start_plan_binds_each_distinct_port_once() {
    let mut plan = match StartPlan::new(&vec![8080, 8080, 8081]) {
        Ok(p) => p,
        Err(_) => panic!("expected a plan"),
    };
    let mut offered = Vec::new();
    while let Some(port) = plan.next_port() {
        offered.push(port);
        plan.bound();
    }
    assert_eq!(offered, vec![8080, 8081]);
    assert_eq!(plan.bound_count(), 2);
    assert!(plan.complete());
}

#[test]
fn start_plan_with_no_ports_binds_nothing() {
    assert!(matches!(StartPlan::new(&vec![]), Err(StartupError::NoPorts)));
}

#[test]
fn start_plan_stops_at_first_bind_failure() {
    let mut plan = match StartPlan::new(&vec![3, 1, 2]) {
        Ok(p) => p,
        Err(_) => panic!("expected a plan"),
    };
    assert_eq!(plan.next_port(), Some(1));
    plan.bound();
    assert_eq!(plan.next_port(), Some(2));
    let e = plan.bind_failed("in use".to_string());
    match e {
        StartupError::Bind { port, reason } => {
            assert_eq!(port, 2);
            assert_eq!(reason, "in use");
        }
        StartupError::NoPorts => panic!("expected a bind error"),
    }
    assert_eq!(plan.next_port(), None);
    assert!(!plan.complete());
    assert_eq!(plan.bound_count(), 1);
}

#[test]
fn one_event_per_relayed_tunnel() {
    let at = ClockTime { hour: 8, minute: 30, second: 15 };
    let closed = tunnel_log(TunnelOutcome::Closed, at, "CONNECT".to_string(), "example.com:443".to_string());
    let e = closed.expect("an event");
    assert_eq!(e.status, "Tunnel Established");
    assert_eq!(e.time, "08:30:15");
    assert_eq!(e.url, "example.com:443");
    let failed = tunnel_log(TunnelOutcome::RelayFailed, at, "CONNECT".to_string(), "x.test:443".to_string());
    assert_eq!(failed.expect("an event").status_code, 200);
    assert!(tunnel_log(TunnelOutcome::UpgradeFailed, at, "CONNECT".to_string(), "x.test:443".to_string()).is_none());
}
