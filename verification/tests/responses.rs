use riot_api::failure::{DecodeFailure, DecodeReason, Failure, PathStep, TransportKind};
use riot_api::json::Json;
use riot_api::player::account::RiotAccount;
use riot_api::response::{
    classify, from_response, interpret, is_blank_body, settle, transport_failure,
};

#[test]
fn rate_limit_is_a_status_failure() {
    let outcome = from_response::<RiotAccount>(429, "{\"status\":{\"status_code\":429}}");
    let failure = outcome.unwrap_err();
    assert_eq!(failure, Failure::HttpStatus(429));
    assert_ne!(failure, Failure::NotFound);
    assert!(!matches!(failure, Failure::Decode(_)));
    assert_eq!(failure.status(), Some(429));
    assert!(failure.is_retryable());
}

#[test]
fn statuses_outside_2xx_are_never_decoded() {
    let body = "{\"puuid\":\"p\"}";
    for status in [100u16, 199, 300, 301, 400, 401, 403, 404, 429, 500, 503, 599, 600, 0, 65535] {
        assert_eq!(
            from_response::<RiotAccount>(status, body),
            Err(Failure::HttpStatus(status)),
            "{}",
            status
        );
    }
    for status in [200u16, 201, 204, 299] {
        assert!(from_response::<RiotAccount>(status, body).is_ok(), "{}", status);
    }
}

#[test]
fn blank_success_body_is_not_found() {
    for body in ["", " ", "\n", "\t\r\n  "] {
        assert_eq!(from_response::<RiotAccount>(200, body), Err(Failure::NotFound));
    }
    assert_eq!(from_response::<RiotAccount>(204, ""), Err(Failure::NotFound));
}

#[test]
fn null_success_body_is_not_found() {
    assert_eq!(from_response::<RiotAccount>(200, "null"), Err(Failure::NotFound));
    assert_eq!(from_response::<RiotAccount>(200, " null\n"), Err(Failure::NotFound));
}

#[test]
fn malformed_body_is_a_decode_failure() {
    for body in ["{", "{\"puuid\":", "not json", "{\"a\":1}}", "\u{a0}"] {
        let failure = from_response::<RiotAccount>(200, body).unwrap_err();
        assert_eq!(
            failure,
            Failure::Decode(DecodeFailure { path: vec![], reason: DecodeReason::Malformed }),
            "{:?}",
            body
        );
        assert!(!failure.is_retryable());
    }
}

#[test]
fn schema_mismatch_is_a_decode_failure_with_a_path() {
    let failure = from_response::<RiotAccount>(200, "{\"game_name\":\"x\"}").unwrap_err();
    assert_eq!(
        failure,
        Failure::Decode(DecodeFailure {
            path: vec![PathStep::Key(String::from("puuid"))],
            reason: DecodeReason::MissingField,
        })
    );
}

#[test]
fn four_kinds_of_failure_are_distinct() {
    let transport = transport_failure(TransportKind::Timeout);
    let status = from_response::<RiotAccount>(500, "").unwrap_err();
    let decode = from_response::<RiotAccount>(200, "[]").unwrap_err();
    let absent = from_response::<RiotAccount>(200, "").unwrap_err();
    assert_eq!(transport, Failure::Transport(TransportKind::Timeout));
    assert_eq!(status, Failure::HttpStatus(500));
    assert_eq!(
        decode,
        Failure::Decode(DecodeFailure { path: vec![], reason: DecodeReason::TypeMismatch })
    );
    assert_eq!(absent, Failure::NotFound);
    let all = [transport, status, decode, absent];
    for i in 0..all.len() {
        for j in 0..all.len() {
            assert_eq!(all[i] == all[j], i == j);
        }
    }
}

#[test]
fn retryable_failures() {
    for kind in
        [TransportKind::Unreachable, TransportKind::Tls, TransportKind::Timeout, TransportKind::Other]
    {
        assert!(Failure::Transport(kind).is_retryable());
        assert_eq!(Failure::Transport(kind).status(), None);
    }
    for status in [429u16, 500, 502, 503, 504, 599] {
        assert!(Failure::HttpStatus(status).is_retryable(), "{}", status);
    }
    for status in [400u16, 401, 403, 404, 428, 430, 499, 600, 301] {
        assert!(!Failure::HttpStatus(status).is_retryable(), "{}", status);
    }
    assert!(!Failure::NotFound.is_retryable());
    assert!(!Failure::Decode(DecodeFailure::here(DecodeReason::TypeMismatch)).is_retryable());
    assert_eq!(Failure::NotFound.status(), None);
}

#[test]
fn interpret_gives_the_payload_of_a_success() {
    assert_eq!(interpret(200, " [1, 2] "), Ok(Json::Array(vec![Json::Int(1), Json::Int(2)])));
    assert_eq!(interpret(404, " [1, 2] "), Err(Failure::HttpStatus(404)));
}

#[test]
fn classify_follows_status_then_body_then_payload() {
    let payload = || Some(Json::Bool(true));
    assert_eq!(classify(503, "true", payload()), Err(Failure::HttpStatus(503)));
    assert_eq!(classify(503, "", None), Err(Failure::HttpStatus(503)));
    assert_eq!(classify(200, "  ", None), Err(Failure::NotFound));
    assert_eq!(classify(200, "null", Some(Json::Null)), Err(Failure::NotFound));
    assert_eq!(classify(200, "true", payload()), Ok(Json::Bool(true)));
    assert_eq!(
        classify(200, "tru", None),
        Err(Failure::Decode(DecodeFailure { path: vec![], reason: DecodeReason::Malformed }))
    );
}

#[test]
fn settle_decodes_a_payload_and_passes_failures_on() {
    let account = Json::Object(vec![(String::from("puuid"), Json::Str(String::from("p")))]);
    assert_eq!(settle::<RiotAccount>(Ok(account)), Ok(RiotAccount::new(String::from("p"), None, None)));
    assert_eq!(settle::<RiotAccount>(Err(Failure::NotFound)), Err(Failure::NotFound));
    assert_eq!(
        settle::<RiotAccount>(Ok(Json::Int(3))),
        Err(Failure::Decode(DecodeFailure { path: vec![], reason: DecodeReason::TypeMismatch }))
    );
}

#[test]
fn blank_bodies() {
    assert!(is_blank_body(""));
    assert!(is_blank_body(" \t\r\n"));
    assert!(!is_blank_body(" x "));
    assert!(!is_blank_body("\u{a0}"));
    assert!(!is_blank_body("\u{2003}"));
    assert!(!is_blank_body("\u{b}"));
}
