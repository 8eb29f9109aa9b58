//! Interpreting what came back: a status and a body become a JSON value or
//! a classified failure.
//!
//! A status outside 200 to 299 is a failure of its own kind and is never
//! handed to a decoder. A successful response whose body is blank, or holds
//! only `null`, says that the resource does not exist.

use vstd::prelude::*;
use vstd::string::*;
use vstd::utf8::*;
use crate::failure::{
    failed_here, DecodeFailure, DecodeFailureView, DecodeReason, Failure, FailureView,
    TransportKind,
};
use crate::schema::Schema;
use crate::json::{parsed_text, Json, JsonView};

verus! {

/// Whether a status reports success.
pub open spec fn is_success(status: u16) -> bool {
    200 <= status <= 299
}

/// Whether a character is white space between JSON tokens.
pub open spec fn is_json_space(c: char) -> bool {
    c == ' ' || c == '\t' || c == '\n' || c == '\r'
}

/// Whether a body holds nothing but white space.
pub open spec fn is_blank(body: Seq<char>) -> bool {
    forall|i: int| 0 <= i < body.len() ==> is_json_space(#[trigger] body[i])
}

/// What a response means, given what reading its body as JSON gave.
pub open spec fn interpreted(status: u16, body: Seq<char>, parsed: Option<JsonView>) -> Result<
    JsonView,
    FailureView,
> {
    if !is_success(status) {
        Err(FailureView::HttpStatus(status))
    } else if is_blank(body) {
        Err(FailureView::NotFound)
    } else {
        match parsed {
            Some(JsonView::Null) => Err(FailureView::NotFound),
            Some(json) => Ok(json),
            None => Err(FailureView::Decode(failed_here(DecodeReason::Malformed))),
        }
    }
}

/// What a response means once its payload went through a decoder.
pub open spec fn settled<T>(
    outcome: Result<JsonView, FailureView>,
    decode: spec_fn(JsonView) -> Result<T, DecodeFailureView>,
) -> Result<T, FailureView> {
    match outcome {
        Ok(json) => match decode(json) {
            Ok(value) => Ok(value),
            Err(failure) => Err(FailureView::Decode(failure)),
        },
        Err(failure) => Err(failure),
    }
}

/// A response with a status outside 200 to 299 is a failure that carries
/// the status, whatever its body holds and whatever type was asked for: it
/// is never a decode failure and never an absent resource.
pub proof fn lemma_failed_status_is_reported<T>(
    status: u16,
    body: Seq<char>,
    parsed: Option<JsonView>,
    decode: spec_fn(JsonView) -> Result<T, DecodeFailureView>,
)
    requires
        !is_success(status),
    ensures
        interpreted(status, body, parsed) == Err::<JsonView, FailureView>(
            FailureView::HttpStatus(status),
        ),
        settled(interpreted(status, body, parsed), decode) == Err::<T, FailureView>(
            FailureView::HttpStatus(status),
        ),
{
}

/// Whether a body holds nothing but white space.
pub fn is_blank_body(body: &str) -> (blank: bool)
    ensures
        blank == is_blank(body@),
{
    if !body.is_ascii() {
        proof {
            let i = choose|i: int|
                0 <= i < body@.len() && !('\0' <= #[trigger] body@[i] <= '\u{7f}');
            assert(!is_json_space(body@[i]));
        }
        return false;
    }
    let bytes = body.as_bytes();
    proof {
        is_ascii_chars_encode_utf8(body@);
    }
    let mut i: usize = 0;
    while i < bytes.len()
        invariant
            i <= bytes.len(),
            bytes@.len() == body@.len(),
            is_ascii_chars(body@),
            forall|j: int| 0 <= j < body@.len() ==> #[trigger] body@[j] as u8 == bytes@[j],
            forall|j: int| 0 <= j < i ==> is_json_space(#[trigger] body@[j]),
        decreases bytes.len() - i,
    {
        let b = bytes[i];
        assert(body@[i as int] as u8 == b);
        if !(b == 32 || b == 9 || b == 10 || b == 13) {
            assert(!is_json_space(body@[i as int]));
            return false;
        }
        i += 1;
    }
    true
}

/// Classifies a response whose body has been read as JSON already; `parsed`
/// is `None` where the body is not JSON.
pub fn classify(status: u16, body: &str, parsed: Option<Json>) -> (outcome: Result<Json, Failure>)
    ensures
        match outcome {
            Ok(json) => interpreted(
                status,
                body@,
                match parsed {
                    Some(value) => Some(value.deep_view()),
                    None => None,
                },
            ) == Ok::<JsonView, FailureView>(json.deep_view()),
            Err(failure) => interpreted(
                status,
                body@,
                match parsed {
                    Some(value) => Some(value.deep_view()),
                    None => None,
                },
            ) == Err::<JsonView, FailureView>(failure.deep_view()),
        },
{
    if status < 200 || status > 299 {
        Err(Failure::HttpStatus(status))
    } else if is_blank_body(body) {
        Err(Failure::NotFound)
    } else {
        match parsed {
            Some(Json::Null) => Err(Failure::NotFound),
            Some(json) => Ok(json),
            None => Err(Failure::Decode(DecodeFailure::here(DecodeReason::Malformed))),
        }
    }
}

/// Interprets a response: reads the body as JSON and classifies the outcome.
pub fn interpret(status: u16, body: &str) -> (outcome: Result<Json, Failure>)
    ensures
        match outcome {
            Ok(json) => interpreted(status, body@, parsed_text(body@)) == Ok::<
                JsonView,
                FailureView,
            >(json.deep_view()),
            Err(failure) => interpreted(status, body@, parsed_text(body@)) == Err::<
                JsonView,
                FailureView,
            >(failure.deep_view()),
        },
{
    let parsed = match Json::parse(body) {
        Ok(json) => Some(json),
        Err(_) => None,
    };
    classify(status, body, parsed)
}

/// Turns a response into a value of the expected type, or into a
/// classified failure: the body is read as JSON, the outcome is classified,
/// and a payload that is there is decoded.
pub fn from_response<T: Schema>(status: u16, body: &str) -> (outcome: Result<T, Failure>)
    ensures
        match outcome {
            Ok(value) => settled(
                interpreted(status, body@, parsed_text(body@)),
                |json: JsonView| T::decoded(json),
            ) == Ok::<T::V, FailureView>(value.deep_view()),
            Err(failure) => settled(
                interpreted(status, body@, parsed_text(body@)),
                |json: JsonView| T::decoded(json),
            ) == Err::<T::V, FailureView>(failure.deep_view()),
        },
{
    let json = interpret(status, body)?;
    settle::<T>(Ok(json))
}

/// Decodes the payload of an interpreted response, and passes a failure on.
pub fn settle<T: Schema>(interpreted: Result<Json, Failure>) -> (outcome: Result<T, Failure>)
    ensures
        match outcome {
            Ok(value) => settled(
                match interpreted {
                    Ok(json) => Ok(json.deep_view()),
                    Err(failure) => Err(failure.deep_view()),
                },
                |json: JsonView| T::decoded(json),
            ) == Ok::<T::V, FailureView>(value.deep_view()),
            Err(failure) => settled(
                match interpreted {
                    Ok(json) => Ok(json.deep_view()),
                    Err(failure) => Err(failure.deep_view()),
                },
                |json: JsonView| T::decoded(json),
            ) == Err::<T::V, FailureView>(failure.deep_view()),
        },
{
    match interpreted {
        Ok(json) => match T::decode(&json) {
            Ok(value) => Ok(value),
            Err(failure) => Err(Failure::Decode(failure)),
        },
        Err(failure) => Err(failure),
    }
}

/// The failure of a call that got no response.
pub fn transport_failure(kind: TransportKind) -> (failure: Failure)
    ensures
        failure.deep_view() == FailureView::Transport(kind),
{
    Failure::Transport(kind)
}

} // verus!
