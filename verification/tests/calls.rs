use riot_api::call::{Action, Call, Event};
use riot_api::failure::{DecodeFailure, DecodeReason, Failure, PathStep, TransportKind};
use riot_api::player::account::RiotAccount;
use riot_api::region::routing::RoutingRegion;

fn built() -> Call<RiotAccount> {
    Call::new(RiotAccount::by_puuid(
        RoutingRegion::EUROPE,
        &String::from("KEY"),
        &String::from("p-1"),
    ))
}

fn sent() -> Call<RiotAccount> {
    built().advance(Event::Start).0
}

fn response(status: u16, body: &str) -> Event {
    Event::Response { status, body: String::from(body) }
}

#[test]
fn start_sends_the_request_once() {
    let (call, action) = built().advance(Event::Start);
    assert!(matches!(call, Call::Sent));
    assert_eq!(
        action,
        Action::Send(String::from(
            "https://europe.api.riotgames.com/riot/account/v1/accounts/by-puuid/p-1?api_key=KEY"
        ))
    );
    let (call, action) = call.advance(Event::Start);
    assert!(matches!(call, Call::Sent));
    assert_eq!(action, Action::Nothing);
}

#[test]
fn a_good_response_ends_the_call_with_a_value() {
    let (call, action) = sent().advance(response(200, "{\"puuid\":\"p-1\"}"));
    assert_eq!(action, Action::Nothing);
    assert_eq!(call.outcome(), Some(Ok(RiotAccount::new(String::from("p-1"), None, None))));
}

#[test]
fn a_rate_limited_response_ends_the_call_with_its_status() {
    let (call, _) = sent().advance(response(429, "slow down"));
    assert_eq!(call.outcome(), Some(Err(Failure::HttpStatus(429))));
}

#[test]
fn a_payload_that_does_not_fit_ends_the_call_with_a_decode_failure() {
    let (call, _) = sent().advance(response(200, "{\"puuid\":1}"));
    assert_eq!(
        call.outcome(),
        Some(Err(Failure::Decode(DecodeFailure {
            path: vec![PathStep::Key(String::from("puuid"))],
            reason: DecodeReason::TypeMismatch,
        })))
    );
}

#[test]
fn an_empty_response_ends_the_call_as_not_found() {
    let (call, _) = sent().advance(response(200, ""));
    assert_eq!(call.outcome(), Some(Err(Failure::NotFound)));
}

#[test]
fn no_response_ends_the_call_with_a_transport_failure() {
    let (call, action) = sent().advance(Event::NoResponse(TransportKind::Timeout));
    assert_eq!(action, Action::Nothing);
    assert_eq!(call.outcome(), Some(Err(Failure::Transport(TransportKind::Timeout))));
}

#[test]
fn a_call_that_is_not_sent_ignores_responses() {
    let (call, action) = built().advance(response(200, "{\"puuid\":\"p-1\"}"));
    assert!(matches!(call, Call::Built(_)));
    assert_eq!(action, Action::Nothing);
    let (call, action) = call.advance(Event::NoResponse(TransportKind::Other));
    assert!(matches!(call, Call::Built(_)));
    assert_eq!(action, Action::Nothing);
    assert_eq!(call.outcome(), None);
    assert_eq!(sent().outcome(), None);
}

#[test]
fn an_ended_call_stays_ended() {
    let (done, _) = sent().advance(response(200, "{\"puuid\":\"p-1\"}"));
    let (done, action) = done.advance(Event::Start);
    assert_eq!(action, Action::Nothing);
    let (done, _) = done.advance(response(500, ""));
    let (done, _) = done.advance(Event::NoResponse(TransportKind::Tls));
    assert_eq!(done.outcome(), Some(Ok(RiotAccount::new(String::from("p-1"), None, None))));

    let (failed, _) = sent().advance(response(503, ""));
    let (failed, action) = failed.advance(Event::Start);
    assert_eq!(action, Action::Nothing);
    let (failed, _) = failed.advance(response(200, "{\"puuid\":\"p-1\"}"));
    assert_eq!(failed.outcome(), Some(Err(Failure::HttpStatus(503))));
}
