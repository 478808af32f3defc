use rust_proxy::config;
use rust_proxy::dispatcher::{Action, Dispatch, Event, Phase, SharedState};
use rust_proxy::endpoint::EndpointSet;
use rust_proxy::outcome::{Outcome, UpstreamReply};
use rust_proxy::response::reply;
use rust_proxy::wire::{shape_request, ProxyRequest};
use serde_json::Value;

const INTERVAL: u64 = 500_000_000;

fn inbound() -> ProxyRequest {
    ProxyRequest {
        model: "model".to_string(),
        project: "project".to_string(),
        access_token: "token".to_string(),
        request: Value::Array(vec![Value::Bool(true)]),
    }
}

fn sequence() -> Dispatch {
    Dispatch::new(config::endpoints(), shape_request(inbound(), "agent-1".to_string()))
}

fn sequence_over(count: usize) -> Dispatch {
    let mut addresses = Vec::new();
    for position in 0..count {
        addresses.push(format!("https://endpoint-{}.example/", position));
    }
    Dispatch::new(EndpointSet::new(addresses), shape_request(inbound(), "agent-1".to_string()))
}

fn answered(status: u16, body: &str) -> Event {
    Event::Upstream(UpstreamReply::Response { status, body: body.to_string() })
}

fn unreachable_endpoint() -> Event {
    Event::Upstream(UpstreamReply::TransportFailure)
}

/// Brings a sequence to its first attempt on a free gate.
fn started(shared: &mut SharedState, now: u64) -> Dispatch {
    let mut dispatch = sequence();
    assert_eq!(dispatch.step(shared, Event::Arrived), Action::ReadClock);
    let action = dispatch.step(shared, Event::Clock { now });
    assert_eq!(action, Action::Send { endpoint: 0 });
    dispatch
}

#[test]
fn server_error_fails_over_to_the_second_endpoint() {
    let mut shared = SharedState::new(INTERVAL);
    let mut dispatch = started(&mut shared, 0);
    assert_eq!(dispatch.step(&mut shared, answered(500, "down")), Action::Send { endpoint: 1 });
    assert_eq!(dispatch.cursor(), 1);
    assert_eq!(dispatch.phase(), Phase::Attempting);
    let action = dispatch.step(&mut shared, answered(200, "B"));
    assert_eq!(
        action,
        Action::Finish { outcome: Outcome::Success { body: "B".to_string() }, wake: None }
    );
    assert_eq!(dispatch.phase(), Phase::Closed);
    let answer = reply(Outcome::Success { body: "B".to_string() });
    assert_eq!(answer.status, 200);
    assert_eq!(answer.body.data, Some("B".to_string()));
    assert!(answer.body.success);
}

#[test]
fn throttling_ends_the_sequence_at_the_first_endpoint() {
    let mut shared = SharedState::new(INTERVAL);
    let mut dispatch = started(&mut shared, 0);
    let action = dispatch.step(&mut shared, answered(429, "{\"error\":\"quota\"}"));
    assert_eq!(
        action,
        Action::Finish {
            outcome: Outcome::RateLimited { body: "{\"error\":\"quota\"}".to_string() },
            wake: None,
        }
    );
    assert_eq!(dispatch.cursor(), 0);
    assert_eq!(dispatch.phase(), Phase::Closed);
    assert_eq!(dispatch.step(&mut shared, answered(200, "late")), Action::Idle);
    let answer = reply(Outcome::RateLimited { body: "{\"error\":\"quota\"}".to_string() });
    assert_eq!(answer.status, 429);
    assert_eq!(answer.body.error, Some("{\"error\":\"quota\"}".to_string()));
    assert_eq!(answer.body.status_code, Some(429));
}

#[test]
fn two_unavailable_endpoints_exhaust_the_sequence() {
    let mut shared = SharedState::new(INTERVAL);
    let mut dispatch = started(&mut shared, 0);
    assert_eq!(dispatch.step(&mut shared, answered(503, "busy")), Action::Send { endpoint: 1 });
    let action = dispatch.step(&mut shared, answered(503, "busy"));
    assert_eq!(action, Action::Finish { outcome: Outcome::Exhausted, wake: None });
    let answer = reply(Outcome::Exhausted);
    assert_eq!(answer.status, 503);
    assert_eq!(answer.body.error, Some("All endpoints failed".to_string()));
    assert_eq!(answer.body.status_code, Some(503));
    assert_eq!(answer.body.data, None);
    assert!(!answer.body.success);
}

#[test]
fn bad_request_ends_the_sequence_at_the_first_endpoint() {
    let mut shared = SharedState::new(INTERVAL);
    let mut dispatch = started(&mut shared, 0);
    let action = dispatch.step(&mut shared, answered(400, "bad field"));
    assert_eq!(
        action,
        Action::Finish {
            outcome: Outcome::BadRequest { body: "bad field".to_string() },
            wake: None,
        }
    );
    assert_eq!(dispatch.cursor(), 0);
    let answer = reply(Outcome::BadRequest { body: "bad field".to_string() });
    assert_eq!(answer.status, 400);
    assert_eq!(answer.body.error, Some("bad field".to_string()));
    assert_eq!(answer.body.status_code, Some(400));
}

#[test]
fn auth_and_other_errors_end_the_sequence_at_once() {
    for (status, expected) in [
        (401u16, Outcome::AuthError { code: 401, body: "e".to_string() }),
        (403, Outcome::AuthError { code: 403, body: "e".to_string() }),
        (404, Outcome::OtherError { code: 404, body: "e".to_string() }),
        (302, Outcome::OtherError { code: 302, body: "e".to_string() }),
    ] {
        let mut shared = SharedState::new(INTERVAL);
        let mut dispatch = started(&mut shared, 0);
        assert_eq!(
            dispatch.step(&mut shared, answered(status, "e")),
            Action::Finish { outcome: expected, wake: None }
        );
        assert_eq!(dispatch.cursor(), 0);
    }
}

#[test]
fn transport_failure_fails_over() {
    let mut shared = SharedState::new(INTERVAL);
    let mut dispatch = started(&mut shared, 0);
    assert_eq!(dispatch.step(&mut shared, unreachable_endpoint()), Action::Send { endpoint: 1 });
    assert_eq!(
        dispatch.step(&mut shared, unreachable_endpoint()),
        Action::Finish { outcome: Outcome::Exhausted, wake: None }
    );
}

#[test]
fn terminal_failure_at_the_second_endpoint_is_handed_over() {
    let mut shared = SharedState::new(INTERVAL);
    let mut dispatch = started(&mut shared, 0);
    assert_eq!(dispatch.step(&mut shared, unreachable_endpoint()), Action::Send { endpoint: 1 });
    assert_eq!(
        dispatch.step(&mut shared, answered(429, "quota")),
        Action::Finish { outcome: Outcome::RateLimited { body: "quota".to_string() }, wake: None }
    );
}

#[test]
fn endpoints_are_attempted_in_order_until_one_is_terminal() {
    let mut shared = SharedState::new(INTERVAL);
    let mut dispatch = sequence_over(5);
    assert_eq!(dispatch.step(&mut shared, Event::Arrived), Action::ReadClock);
    assert_eq!(dispatch.step(&mut shared, Event::Clock { now: 3 }), Action::Send { endpoint: 0 });
    assert_eq!(dispatch.step(&mut shared, answered(500, "")), Action::Send { endpoint: 1 });
    assert_eq!(dispatch.step(&mut shared, unreachable_endpoint()), Action::Send { endpoint: 2 });
    assert_eq!(dispatch.step(&mut shared, answered(599, "")), Action::Send { endpoint: 3 });
    assert_eq!(
        dispatch.step(&mut shared, answered(204, "")),
        Action::Finish { outcome: Outcome::Success { body: String::new() }, wake: None }
    );
    assert_eq!(dispatch.cursor(), 3);
}

#[test]
fn empty_endpoint_set_is_exhausted_at_once() {
    let mut shared = SharedState::new(INTERVAL);
    let mut dispatch = sequence_over(0);
    assert_eq!(dispatch.step(&mut shared, Event::Arrived), Action::ReadClock);
    assert_eq!(
        dispatch.step(&mut shared, Event::Clock { now: 77 }),
        Action::Finish { outcome: Outcome::Exhausted, wake: None }
    );
    assert_eq!(shared.limiter.last_dispatch(), Some(77));
    assert_eq!(shared.gate.holder(), None);
}

#[test]
fn single_endpoint_exhausts_after_one_transient_failure() {
    let mut shared = SharedState::new(INTERVAL);
    let mut dispatch = sequence_over(1);
    dispatch.step(&mut shared, Event::Arrived);
    assert_eq!(dispatch.step(&mut shared, Event::Clock { now: 0 }), Action::Send { endpoint: 0 });
    assert_eq!(
        dispatch.step(&mut shared, answered(502, "")),
        Action::Finish { outcome: Outcome::Exhausted, wake: None }
    );
}

#[test]
fn first_call_starts_without_sleeping() {
    let mut shared = SharedState::new(INTERVAL);
    let mut dispatch = sequence();
    assert_eq!(dispatch.phase(), Phase::New);
    assert_eq!(dispatch.step(&mut shared, Event::Arrived), Action::ReadClock);
    assert_eq!(dispatch.phase(), Phase::Pacing);
    assert_eq!(shared.limiter.last_dispatch(), None);
    assert_eq!(
        dispatch.step(&mut shared, Event::Clock { now: 1_234 }),
        Action::Send { endpoint: 0 }
    );
    assert_eq!(shared.limiter.last_dispatch(), Some(1_234));
}

#[test]
fn call_inside_the_interval_sleeps_for_the_rest() {
    let mut shared = SharedState::new(INTERVAL);
    let mut first = started(&mut shared, 1_000_000_000);
    first.step(&mut shared, answered(200, "ok"));

    let mut second = sequence();
    assert_eq!(second.step(&mut shared, Event::Arrived), Action::ReadClock);
    assert_eq!(
        second.step(&mut shared, Event::Clock { now: 1_200_000_000 }),
        Action::Sleep { nanos: 300_000_000 }
    );
    assert_eq!(second.phase(), Phase::Sleeping);
    assert_eq!(shared.limiter.last_dispatch(), Some(1_000_000_000));
    assert_eq!(
        second.step(&mut shared, Event::Clock { now: 1_500_000_123 }),
        Action::Send { endpoint: 0 }
    );
    assert_eq!(shared.limiter.last_dispatch(), Some(1_500_000_123));
}

#[test]
fn call_after_the_interval_does_not_sleep() {
    let mut shared = SharedState::new(INTERVAL);
    let mut first = started(&mut shared, 1_000_000_000);
    first.step(&mut shared, answered(200, "ok"));
    let mut second = sequence();
    second.step(&mut shared, Event::Arrived);
    assert_eq!(
        second.step(&mut shared, Event::Clock { now: 1_500_000_000 }),
        Action::Send { endpoint: 0 }
    );
    assert_eq!(shared.limiter.last_dispatch(), Some(1_500_000_000));
}

#[test]
fn failover_spends_one_turn_only() {
    let mut shared = SharedState::new(INTERVAL);
    let mut dispatch = started(&mut shared, 40);
    assert_eq!(shared.limiter.last_dispatch(), Some(40));
    dispatch.step(&mut shared, answered(500, ""));
    assert_eq!(shared.limiter.last_dispatch(), Some(40));
    dispatch.step(&mut shared, answered(200, ""));
    assert_eq!(shared.limiter.last_dispatch(), Some(40));
}

#[test]
fn start_is_recorded_even_if_the_call_fails() {
    let mut shared = SharedState::new(INTERVAL);
    let mut dispatch = started(&mut shared, 40);
    dispatch.step(&mut shared, unreachable_endpoint());
    dispatch.step(&mut shared, unreachable_endpoint());
    assert_eq!(shared.limiter.last_dispatch(), Some(40));
    assert_eq!(shared.limiter.remaining(41), INTERVAL - 1);
}

#[test]
fn every_attempt_posts_the_same_request() {
    let mut shared = SharedState::new(INTERVAL);
    let mut dispatch = started(&mut shared, 0);
    let id = dispatch.wire().request_id.clone();
    let body = dispatch.wire().body.clone();
    assert_eq!(id, "agent-1");
    assert_eq!(body.get("requestId").and_then(Value::as_str), Some("agent-1"));
    dispatch.step(&mut shared, answered(500, ""));
    assert_eq!(dispatch.wire().request_id, id);
    assert_eq!(dispatch.wire().body, body);
    assert_eq!(dispatch.endpoints().len(), 2);
    dispatch.step(&mut shared, answered(200, ""));
    assert_eq!(dispatch.wire().request_id, id);
    assert_eq!(dispatch.wire().body, body);
}

#[test]
fn sequence_for_a_call_gets_a_fresh_request_id() {
    let first = Dispatch::for_call(config::endpoints(), inbound());
    let second = Dispatch::for_call(config::endpoints(), inbound());
    assert_eq!(first.phase(), Phase::New);
    assert_eq!(first.cursor(), 0);
    assert_eq!(first.endpoints().len(), 2);
    assert!(first.wire().request_id.starts_with("agent-"));
    assert_eq!(first.wire().request_id.len(), 42);
    assert_ne!(first.wire().request_id, second.wire().request_id);
    assert_eq!(
        first.wire().body.get("requestId").and_then(Value::as_str),
        Some(first.wire().request_id.as_str())
    );
}

#[test]
fn second_call_parks_until_the_first_has_ended() {
    let mut shared = SharedState::new(INTERVAL);
    let mut first = started(&mut shared, 0);
    let mut second = sequence();
    assert_eq!(second.step(&mut shared, Event::Arrived), Action::Park);
    assert_eq!(second.phase(), Phase::Parked);
    assert_eq!(second.ticket(), 1);
    // Not yet its turn: a wake-up that no release stands behind parks again.
    assert_eq!(second.step(&mut shared, Event::Admitted), Action::Park);
    assert_eq!(second.step(&mut shared, Event::Clock { now: 5 }), Action::Idle);
    assert_eq!(first.step(&mut shared, answered(500, "")), Action::Send { endpoint: 1 });
    assert_eq!(second.step(&mut shared, Event::Admitted), Action::Park);
    assert_eq!(
        first.step(&mut shared, answered(200, "one")),
        Action::Finish { outcome: Outcome::Success { body: "one".to_string() }, wake: Some(1) }
    );
    assert_eq!(second.step(&mut shared, Event::Admitted), Action::ReadClock);
    assert_eq!(
        second.step(&mut shared, Event::Clock { now: 100 }),
        Action::Sleep { nanos: INTERVAL - 100 }
    );
    assert_eq!(
        second.step(&mut shared, Event::Clock { now: INTERVAL }),
        Action::Send { endpoint: 0 }
    );
    assert_eq!(
        second.step(&mut shared, answered(200, "two")),
        Action::Finish { outcome: Outcome::Success { body: "two".to_string() }, wake: None }
    );
    assert_eq!(shared.gate.holder(), None);
}

#[test]
fn waiting_calls_are_woken_in_arrival_order() {
    let mut shared = SharedState::new(0);
    let mut calls: Vec<Dispatch> = Vec::new();
    for _ in 0..4 {
        calls.push(sequence());
    }
    assert_eq!(calls[0].step(&mut shared, Event::Arrived), Action::ReadClock);
    for call in calls.iter_mut().skip(1) {
        assert_eq!(call.step(&mut shared, Event::Arrived), Action::Park);
    }
    for position in 0..4 {
        if position > 0 {
            assert_eq!(calls[position].step(&mut shared, Event::Admitted), Action::ReadClock);
        }
        assert_eq!(
            calls[position].step(&mut shared, Event::Clock { now: 9 }),
            Action::Send { endpoint: 0 }
        );
        let wake = if position < 3 { Some(position as u64 + 1) } else { None };
        assert_eq!(
            calls[position].step(&mut shared, answered(200, "")),
            Action::Finish { outcome: Outcome::Success { body: String::new() }, wake }
        );
    }
}

fn executing(call: &Dispatch) -> bool {
    matches!(call.phase(), Phase::Pacing | Phase::Sleeping | Phase::Attempting)
}

#[test]
fn at_most_one_sequence_executes_under_load() {
    let mut shared = SharedState::new(10);
    let mut calls: Vec<Dispatch> = Vec::new();
    for _ in 0..12 {
        calls.push(sequence());
    }
    let mut clock: u64 = 0;
    let mut finished = 0;
    let mut round: usize = 0;
    while finished < calls.len() {
        assert!(round < 10_000);
        // Every call is offered, in a rotating order, the event its phase awaits.
        let position = (round * 7 + round / 12) % calls.len();
        round += 1;
        clock += 3;
        let event = match calls[position].phase() {
            Phase::New => Event::Arrived,
            Phase::Parked => Event::Admitted,
            Phase::Pacing | Phase::Sleeping => Event::Clock { now: clock },
            Phase::Attempting => {
                if round % 3 == 0 {
                    answered(200, "ok")
                } else {
                    answered(503, "busy")
                }
            }
            Phase::Closed => continue,
        };
        if let Action::Finish { .. } = calls[position].step(&mut shared, event) {
            finished += 1;
        }
        let running = calls.iter().filter(|call| executing(call)).count();
        assert!(running <= 1);
        assert!(shared.gate.in_flight() <= 1);
        // A waiter that was handed the slot holds it before it runs on.
        assert!(running <= shared.gate.in_flight());
    }
    assert_eq!(shared.gate.holder(), None);
    assert_eq!(shared.gate.waiting(), 0);
}

#[test]
fn starts_of_successive_calls_are_spaced() {
    let mut shared = SharedState::new(INTERVAL);
    let mut clock: u64 = 7;
    let mut starts: Vec<u64> = Vec::new();
    for call in 0..20u64 {
        let mut dispatch = sequence();
        assert_eq!(dispatch.step(&mut shared, Event::Arrived), Action::ReadClock);
        clock += call * 40_000_000;
        match dispatch.step(&mut shared, Event::Clock { now: clock }) {
            Action::Sleep { nanos } => {
                clock += nanos;
                assert_eq!(
                    dispatch.step(&mut shared, Event::Clock { now: clock }),
                    Action::Send { endpoint: 0 }
                );
            }
            Action::Send { endpoint: 0 } => {}
            other => panic!("unexpected action {:?}", other),
        }
        starts.push(shared.limiter.last_dispatch().unwrap());
        dispatch.step(&mut shared, answered(200, ""));
    }
    for pair in starts.windows(2) {
        assert!(pair[1] - pair[0] >= INTERVAL);
    }
}

#[test]
fn events_that_the_phase_does_not_await_change_nothing() {
    let mut shared = SharedState::new(INTERVAL);
    let mut dispatch = sequence();
    assert_eq!(dispatch.step(&mut shared, Event::Admitted), Action::Idle);
    assert_eq!(dispatch.step(&mut shared, Event::Clock { now: 1 }), Action::Idle);
    assert_eq!(dispatch.step(&mut shared, answered(200, "")), Action::Idle);
    assert_eq!(dispatch.phase(), Phase::New);
    assert_eq!(shared.gate.holder(), None);
    assert_eq!(shared.limiter.last_dispatch(), None);

    dispatch.step(&mut shared, Event::Arrived);
    assert_eq!(dispatch.step(&mut shared, Event::Arrived), Action::Idle);
    assert_eq!(dispatch.step(&mut shared, Event::Admitted), Action::Idle);
    assert_eq!(dispatch.step(&mut shared, answered(200, "")), Action::Idle);
    assert_eq!(dispatch.phase(), Phase::Pacing);

    dispatch.step(&mut shared, Event::Clock { now: 1 });
    assert_eq!(dispatch.step(&mut shared, Event::Clock { now: 2 }), Action::Idle);
    assert_eq!(dispatch.step(&mut shared, Event::Arrived), Action::Idle);
    assert_eq!(dispatch.phase(), Phase::Attempting);
    assert_eq!(dispatch.cursor(), 0);
    assert_eq!(shared.limiter.last_dispatch(), Some(1));
}

#[test]
fn closed_sequence_hands_over_nothing_more() {
    let mut shared = SharedState::new(INTERVAL);
    let mut dispatch = started(&mut shared, 0);
    dispatch.step(&mut shared, answered(200, "done"));
    for event in [
        Event::Arrived,
        Event::Admitted,
        Event::Clock { now: 9 },
        answered(200, "again"),
        unreachable_endpoint(),
    ] {
        assert_eq!(dispatch.step(&mut shared, event), Action::Idle);
        assert_eq!(dispatch.phase(), Phase::Closed);
    }
    assert_eq!(shared.gate.holder(), None);
}

#[test]
fn fresh_shared_state() {
    let shared = SharedState::new(INTERVAL);
    assert_eq!(shared.gate.holder(), None);
    assert_eq!(shared.gate.waiting(), 0);
    assert_eq!(shared.limiter.min_interval(), INTERVAL);
    assert_eq!(shared.limiter.last_dispatch(), None);
}
