//! One call, from the composed request to its outcome.
//!
//! A call is built, then sent, then it ends: with a value or with a
//! classified failure. It is never sent twice and never leaves an end state;
//! a caller that wants to try again makes a new call. The network is not
//! touched here: the caller performs the action that a step asks for and
//! reports what happened as the next event.

use vstd::prelude::*;
use vstd::string::*;
use crate::schema::Schema;
use crate::failure::{Failure, FailureView, TransportKind};
use crate::json::{parsed_text, JsonView};
use crate::request::{rendered, RequestSpec};
use crate::response::{from_response, interpreted, settled};

verus! {

/// The state of a call that is to give a `T`.
#[derive(Debug)]
pub enum Call<T> {
    /// The request is composed and not sent yet.
    Built(RequestSpec),
    /// The request is under way.
    Sent,
    /// The call ended with a value.
    Succeeded(T),
    /// The call ended without one.
    Failed(Failure),
}

/// What happened to a call.
#[derive(Debug)]
pub enum Event {
    /// The caller is ready to send.
    Start,
    /// A response arrived.
    Response { status: u16, body: String },
    /// No response arrived.
    NoResponse(TransportKind),
}

/// What a call asks its caller to do next.
#[derive(Debug, PartialEq, Eq)]
pub enum Action {
    /// Issue one GET request to this URL, and report the outcome.
    Send(String),
    /// Nothing: the call has ended, or the event does not concern it.
    Nothing,
}

/// What the outcome of a response is for a call that is to give a `T`.
pub open spec fn response_outcome<T: Schema>(status: u16, body: Seq<char>) -> Result<
    T::V,
    FailureView,
> {
    settled(interpreted(status, body, parsed_text(body)), |json: JsonView| T::decoded(json))
}

impl<T: Schema> Call<T> {
    /// Whether the call has ended.
    pub open spec fn is_terminal(self) -> bool {
        self is Succeeded || self is Failed
    }

    /// Whether a step from `self` on `event` may end in `next` asking for
    /// `action`.
    ///
    /// A built call that is started becomes sent and asks for its URL to be
    /// fetched. A sent call that hears of a response ends as the response
    /// says; one that hears that no response arrived ends with a transport
    /// failure. Every other event leaves a call as it is: above all, a call
    /// that has ended stays ended.
    pub open spec fn steps_to(self, event: Event, next: Self, action: Action) -> bool {
        match (self, event) {
            (Call::Built(request), Event::Start) => {
                &&& next is Sent
                &&& action matches Action::Send(url)
                &&& url@ == rendered(request@)
            },
            (Call::Sent, Event::Response { status, body }) => {
                &&& action is Nothing
                &&& match response_outcome::<T>(status, body@) {
                    Ok(value) => next matches Call::Succeeded(got) && got.deep_view() == value,
                    Err(failure) => next matches Call::Failed(got) && got.deep_view() == failure,
                }
            },
            (Call::Sent, Event::NoResponse(kind)) => {
                &&& action is Nothing
                &&& next matches Call::Failed(got)
                &&& got.deep_view() == FailureView::Transport(kind)
            },
            _ => next == self && action is Nothing,
        }
    }

    /// A call for a composed request.
    pub fn new(request: RequestSpec) -> (call: Self)
        ensures
            call == Call::<T>::Built(request),
    {
        Call::Built(request)
    }

    /// Takes one step: the next state, and what the caller is to do.
    pub fn advance(self, event: Event) -> (step: (Self, Action))
        ensures
            self.steps_to(event, step.0, step.1),
            self.is_terminal() ==> step.0 == self,
    {
        match self {
            Call::Built(request) => match event {
                Event::Start => {
                    let url = request.url();
                    (Call::Sent, Action::Send(url))
                },
                _ => (Call::Built(request), Action::Nothing),
            },
            Call::Sent => match event {
                Event::Response { status, body } => match from_response::<T>(
                    status,
                    body.as_str(),
                ) {
                    Ok(value) => (Call::Succeeded(value), Action::Nothing),
                    Err(failure) => (Call::Failed(failure), Action::Nothing),
                },
                Event::NoResponse(kind) => (Call::Failed(Failure::Transport(kind)), Action::Nothing),
                Event::Start => (Call::Sent, Action::Nothing),
            },
            Call::Succeeded(value) => (Call::Succeeded(value), Action::Nothing),
            Call::Failed(failure) => (Call::Failed(failure), Action::Nothing),
        }
    }

    /// The outcome of a call that has ended; `None` while it has not.
    pub fn outcome(self) -> (outcome: Option<Result<T, Failure>>)
        ensures
            outcome == match self {
                Call::Succeeded(value) => Some(Ok::<T, Failure>(value)),
                Call::Failed(failure) => Some(Err::<T, Failure>(failure)),
                _ => None,
            },
    {
        match self {
            Call::Succeeded(value) => Some(Ok(value)),
            Call::Failed(failure) => Some(Err(failure)),
            _ => None,
        }
    }
}

} // verus!
