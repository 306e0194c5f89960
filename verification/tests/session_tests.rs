use mumu_search::probe::{classify_probe, ProbeOutcome};
use mumu_search::{build_url, generate_z_values, DispatchDecision, SearchSession, SearchState};

#[test]
fn scenario_only_123456_succeeds() {
    // Only candidate 123456 resolves with HTTP 200; the search delivers
    // exactly that URL.
    let expected = "https://a11.gdl.netease.com/MuMuNG-setup-V1.0.0.0-0001123456.exe";
    let mut session = SearchSession::new(1000);
    for z in generate_z_values() {
        match session.next_dispatch() {
            DispatchDecision::Dispatch => {
                session.begin_probe();
                let url = build_url("1.0.0.0", "0001", &z);
                let status: u16 = if z == "123456" { 200 } else { 404 };
                session.finish_probe(classify_probe(true, status, url));
            }
            DispatchDecision::Skip => {}
            DispatchDecision::Wait => unreachable!("sequential driver never fills the ceiling"),
        }
    }
    assert_eq!(session.take_result(), Some(expected.to_string()));
    assert_eq!(session.state, SearchState::Found);
    assert_eq!(session.exit_code(), 0);
}

#[test]
fn no_dispatch_once_found() {
    let mut session = SearchSession::new(10);
    session.begin_probe();
    session.finish_probe(ProbeOutcome::Success("u".to_string()));
    assert!(session.found);
    assert_eq!(session.next_dispatch(), DispatchDecision::Skip);
}

#[test]
fn ceiling_limits_in_flight_probes() {
    let mut session = SearchSession::new(2);
    assert_eq!(session.next_dispatch(), DispatchDecision::Dispatch);
    session.begin_probe();
    assert_eq!(session.next_dispatch(), DispatchDecision::Dispatch);
    session.begin_probe();
    assert_eq!(session.in_flight, 2);
    assert_eq!(session.next_dispatch(), DispatchDecision::Wait);
    session.finish_probe(ProbeOutcome::Failure);
    assert_eq!(session.in_flight, 1);
    assert_eq!(session.next_dispatch(), DispatchDecision::Dispatch);
}

#[test]
fn slot_keeps_first_of_racing_successes() {
    let mut session = SearchSession::new(5);
    session.begin_probe();
    session.begin_probe();
    session.finish_probe(ProbeOutcome::Success("first".to_string()));
    session.finish_probe(ProbeOutcome::Success("second".to_string()));
    assert_eq!(session.take_result(), Some("first".to_string()));
}

#[test]
fn at_most_one_delivery_per_session() {
    let mut session = SearchSession::new(5);
    session.begin_probe();
    session.finish_probe(ProbeOutcome::Success("only".to_string()));
    assert_eq!(session.take_result(), Some("only".to_string()));
    assert_eq!(session.take_result(), None);
    assert_eq!(session.take_result(), None);
}

#[test]
fn all_failures_then_timeout_exits_nonzero() {
    let mut session = SearchSession::new(1000);
    for _ in 0..100 {
        match session.next_dispatch() {
            DispatchDecision::Dispatch => {
                session.begin_probe();
                session.finish_probe(classify_probe(true, 404, "u".to_string()));
            }
            _ => unreachable!(),
        }
    }
    assert_eq!(session.take_result(), None);
    session.on_timeout();
    assert_eq!(session.state, SearchState::TimedOut);
    assert_eq!(session.exit_code(), 1);
    assert_eq!(session.take_result(), None);
    assert_eq!(session.next_dispatch(), DispatchDecision::Skip);
}

#[test]
fn transport_error_is_a_routine_failure() {
    match classify_probe(false, 200, "u".to_string()) {
        ProbeOutcome::Failure => {}
        _ => panic!("a transport error must classify as failure"),
    }
    match classify_probe(true, 299, "u".to_string()) {
        ProbeOutcome::Success(url) => assert_eq!(url, "u"),
        _ => panic!("a 2xx status must classify as success"),
    }
    match classify_probe(true, 300, "u".to_string()) {
        ProbeOutcome::Failure => {}
        _ => panic!("a non-2xx status must classify as failure"),
    }
}

#[test]
fn found_flag_is_sticky() {
    let mut session = SearchSession::new(3);
    session.begin_probe();
    session.begin_probe();
    session.finish_probe(ProbeOutcome::Success("u".to_string()));
    session.finish_probe(ProbeOutcome::Failure);
    assert!(session.found);
    session.on_timeout();
    assert!(session.found);
}
