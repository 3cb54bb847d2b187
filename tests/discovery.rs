use clubscore_discovery::{
    Action, Discovery, DiscoveryError, DiscoveryResult, Input, ResolutionEvent,
    DEFAULT_TIMEOUT_MS, POLL_SLICE_MS, SERVICE_TYPE,
};
use clubscore_discovery::session::select_host;

fn resolved(addresses: &[&str], hostname: &str, port: u16) -> Input {
    Input::Delivered(ResolutionEvent::Resolved {
        addresses: addresses.iter().map(|a| a.to_string()).collect(),
        hostname: hostname.to_string(),
        port,
    })
}

/// Brings a discovery to its first wait.
fn started(timeout_ms: Option<u64>) -> Discovery {
    let mut d = Discovery::new(timeout_ms);
    assert_eq!(d.next_action(), Action::AcquireSession);
    assert_eq!(d.step(Input::SessionAcquired), Action::Browse);
    assert_eq!(d.step(Input::BrowseStarted), Action::ReadClock);
    assert_eq!(d.step(Input::Clock(0)), Action::Wait { cap_ms: POLL_SLICE_MS });
    d
}

fn finish_ok(d: Discovery) -> Option<DiscoveryResult> {
    match d.finish() {
        Some(Ok(r)) => r,
        _ => panic!("discovery did not finish without error"),
    }
}

#[test]
fn constants_have_their_values() {
    assert_eq!(SERVICE_TYPE, "_clubscore._tcp.local.");
    assert_eq!(DEFAULT_TIMEOUT_MS, 2500);
    assert_eq!(POLL_SLICE_MS, 300);
}

#[test]
fn no_responder_gives_absent_after_deadline() {
    let mut d = started(Some(1000));
    assert_eq!(d.step(Input::WaitTimedOut), Action::ReadClock);
    assert_eq!(d.step(Input::Clock(300)), Action::Wait { cap_ms: 300 });
    assert_eq!(d.step(Input::WaitTimedOut), Action::ReadClock);
    assert_eq!(d.step(Input::Clock(999)), Action::Wait { cap_ms: 300 });
    assert_eq!(d.step(Input::WaitTimedOut), Action::ReadClock);
    assert_eq!(d.step(Input::Clock(1000)), Action::Release);
    assert_eq!(d.step(Input::Released), Action::Finish);
    assert!(finish_ok(d).is_none());
}

#[test]
fn default_deadline_is_used_without_timeout() {
    let mut d = started(None);
    assert_eq!(d.step(Input::WaitTimedOut), Action::ReadClock);
    assert_eq!(d.step(Input::Clock(2499)), Action::Wait { cap_ms: 300 });
    assert_eq!(d.step(Input::WaitTimedOut), Action::ReadClock);
    assert_eq!(d.step(Input::Clock(2500)), Action::Release);
}

#[test]
fn zero_timeout_never_waits() {
    let mut d = Discovery::new(Some(0));
    d.step(Input::SessionAcquired);
    d.step(Input::BrowseStarted);
    assert_eq!(d.step(Input::Clock(0)), Action::Release);
    assert_eq!(d.step(Input::Released), Action::Finish);
    assert!(finish_ok(d).is_none());
}

#[test]
fn single_responder_with_address() {
    let mut d = started(Some(2500));
    assert_eq!(d.step(resolved(&["10.0.0.5"], "scoreboard.local", 4123)), Action::Release);
    assert_eq!(d.step(Input::Released), Action::Finish);
    let r = finish_ok(d).expect("an instance was resolved");
    assert_eq!(r.host, "10.0.0.5");
    assert_eq!(r.port, 4123);
}

#[test]
fn empty_address_list_falls_back_to_hostname() {
    let mut d = started(Some(2500));
    assert_eq!(d.step(resolved(&[], "scoreboard.local", 4123)), Action::Release);
    d.step(Input::Released);
    let r = finish_ok(d).expect("an instance was resolved");
    assert_eq!(r.host, "scoreboard.local");
    assert_eq!(r.port, 4123);
}

#[test]
fn first_of_two_responders_wins() {
    let mut d = started(Some(2500));
    d.step(resolved(&["10.0.0.7"], "first.local", 5000));
    d.step(resolved(&["10.0.0.8"], "second.local", 6000));
    d.step(Input::Released);
    let r = finish_ok(d).expect("an instance was resolved");
    assert_eq!(r.host, "10.0.0.7");
    assert_eq!(r.port, 5000);

    let mut d = started(Some(2500));
    d.step(resolved(&["10.0.0.8"], "second.local", 6000));
    d.step(resolved(&["10.0.0.7"], "first.local", 5000));
    d.step(Input::Released);
    let r = finish_ok(d).expect("an instance was resolved");
    assert_eq!(r.host, "10.0.0.8");
    assert_eq!(r.port, 6000);
}

#[test]
fn other_events_are_skipped() {
    let mut d = started(Some(2500));
    assert_eq!(d.step(Input::Delivered(ResolutionEvent::Other)), Action::ReadClock);
    assert_eq!(d.step(Input::Clock(400)), Action::Wait { cap_ms: 300 });
    assert_eq!(d.step(Input::Delivered(ResolutionEvent::Removed)), Action::ReadClock);
    assert_eq!(d.step(Input::Clock(800)), Action::Wait { cap_ms: 300 });
    d.step(resolved(&["10.0.0.5"], "scoreboard.local", 4123));
    d.step(Input::Released);
    assert_eq!(finish_ok(d).expect("an instance was resolved").host, "10.0.0.5");
}

#[test]
fn session_failure_is_an_error_without_polling() {
    let mut d = Discovery::new(Some(1000));
    assert_eq!(d.step(Input::SessionFailed("no usable interface".to_string())), Action::Finish);
    assert_eq!(d.next_action(), Action::Finish);
    assert_eq!(d.step(Input::Clock(0)), Action::Finish);
    assert_eq!(d.step(resolved(&["10.0.0.5"], "x.local", 1)), Action::Finish);
    match d.finish() {
        Some(Err(DiscoveryError::SessionInit(m))) => assert_eq!(m, "no usable interface"),
        _ => panic!("expected a session error"),
    }
}

#[test]
fn browse_failure_releases_then_errors() {
    let mut d = Discovery::new(Some(1000));
    d.step(Input::SessionAcquired);
    assert_eq!(d.step(Input::BrowseFailed("bad service type".to_string())), Action::Release);
    assert_eq!(d.step(Input::Released), Action::Finish);
    match d.finish() {
        Some(Err(e)) => {
            assert!(matches!(e, DiscoveryError::Browse(_)));
            assert_eq!(e.into_message(), "bad service type");
        },
        _ => panic!("expected a browse error"),
    }
}

#[test]
fn unfinished_discovery_has_no_outcome() {
    let d = started(Some(1000));
    assert!(d.finish().is_none());
}

#[test]
fn inputs_out_of_turn_are_ignored() {
    let mut d = Discovery::new(Some(1000));
    assert_eq!(d.step(Input::Clock(5)), Action::AcquireSession);
    assert_eq!(d.step(Input::Released), Action::AcquireSession);
    assert_eq!(d.step(Input::SessionAcquired), Action::Browse);
    assert_eq!(d.step(Input::WaitTimedOut), Action::Browse);
}

#[test]
fn two_interleaved_discoveries_are_independent() {
    let mut a = started(Some(1000));
    let mut b = started(Some(1000));
    a.step(resolved(&["10.0.0.5"], "a.local", 4123));
    assert_eq!(b.step(Input::WaitTimedOut), Action::ReadClock);
    assert_eq!(b.step(Input::Clock(1000)), Action::Release);
    a.step(Input::Released);
    b.step(Input::Released);
    assert_eq!(finish_ok(a).expect("resolved").host, "10.0.0.5");
    assert!(finish_ok(b).is_none());
}

#[test]
fn repeated_discoveries_without_responders_stay_absent() {
    let mut first = started(Some(500));
    first.step(resolved(&["10.0.0.5"], "old.local", 4123));
    first.step(Input::Released);
    assert!(finish_ok(first).is_some());
    for _ in 0..3 {
        let mut d = started(Some(500));
        d.step(Input::WaitTimedOut);
        assert_eq!(d.step(Input::Clock(500)), Action::Release);
        d.step(Input::Released);
        assert!(finish_ok(d).is_none());
    }
}

#[test]
fn select_host_prefers_first_address() {
    let addrs = vec!["192.168.1.2".to_string(), "fe80::1".to_string()];
    assert_eq!(select_host(addrs, "h.local".to_string()), "192.168.1.2");
    assert_eq!(select_host(Vec::new(), "h.local".to_string()), "h.local");
}
