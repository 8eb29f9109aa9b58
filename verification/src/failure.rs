//! The ways a call can fail, kept apart so that a caller can tell them from
//! each other and from a resource that simply does not exist.

use vstd::prelude::*;
use vstd::string::*;
use crate::text::{decimal, push_char, push_decimal};

verus! {

/// The failure to read a name: the text names nothing of the kind asked for.
#[derive(Clone, Debug, PartialEq, Eq)]
pub struct UnknownName {
    /// The text that was given, unchanged.
    pub text: String,
}

/// Why no response arrived at all.
#[derive(Clone, Copy, Debug, PartialEq, Eq, Structural)]
pub enum TransportKind {
    /// The host could not be resolved or reached.
    Unreachable,
    /// The secure channel could not be set up.
    Tls,
    /// No answer came in time.
    Timeout,
    /// Any other failure below HTTP.
    Other,
}

/// Why a payload does not fit the expected schema.
#[derive(Clone, Copy, Debug, PartialEq, Eq, Structural)]
pub enum DecodeReason {
    /// The body is not JSON at all.
    Malformed,
    /// A required field is absent.
    MissingField,
    /// A value is present but of another type than the schema asks for.
    TypeMismatch,
}

/// One step on the way from the root of a payload to a value inside it.
#[derive(Clone, Debug, PartialEq, Eq)]
pub enum PathStep {
    /// Into the field of an object, by its key.
    Key(String),
    /// Into the element of an array, by its position.
    Index(usize),
}

/// A path step as plain data.
pub enum StepView {
    Key(Seq<char>),
    Index(nat),
}

impl DeepView for PathStep {
    type V = StepView;

    open spec fn deep_view(&self) -> StepView {
        match self {
            PathStep::Key(key) => StepView::Key(key@),
            PathStep::Index(index) => StepView::Index(*index as nat),
        }
    }
}

/// A payload that does not match the expected schema: where, and why.
#[derive(Clone, Debug, PartialEq, Eq)]
pub struct DecodeFailure {
    /// The way from the root of the payload to the offending value. Empty
    /// when the root itself is at fault.
    pub path: Vec<PathStep>,
    pub reason: DecodeReason,
}

/// A decode failure as plain data.
pub struct DecodeFailureView {
    pub path: Seq<StepView>,
    pub reason: DecodeReason,
}

impl DeepView for DecodeFailure {
    type V = DecodeFailureView;

    open spec fn deep_view(&self) -> DecodeFailureView {
        DecodeFailureView { path: self.path.deep_view(), reason: self.reason }
    }
}

/// The failure of a value that is itself at fault.
pub open spec fn failed_here(reason: DecodeReason) -> DecodeFailureView {
    DecodeFailureView { path: Seq::empty(), reason }
}

/// The failure of the field `key` of the value at hand.
pub open spec fn failed_at(key: Seq<char>, reason: DecodeReason) -> DecodeFailureView {
    DecodeFailureView { path: seq![StepView::Key(key)], reason }
}

/// A failure that arose below a step, seen from above that step.
pub open spec fn below(step: StepView, inner: DecodeFailureView) -> DecodeFailureView {
    DecodeFailureView { path: seq![step] + inner.path, reason: inner.reason }
}

/// A path as text: keys joined by dots, positions in square brackets.
pub open spec fn path_text(path: Seq<StepView>) -> Seq<char>
    decreases path.len(),
{
    if path.len() == 0 {
        Seq::empty()
    } else {
        let front = path_text(path.drop_last());
        match path.last() {
            StepView::Key(key) => if path.len() == 1 {
                key
            } else {
                front + seq!['.'] + key
            },
            StepView::Index(index) => front + seq!['['] + decimal(index) + seq![']'],
        }
    }
}

impl DecodeFailure {
    /// The failure of a value that is itself at fault.
    pub fn here(reason: DecodeReason) -> (failure: Self)
        ensures
            failure.deep_view() == failed_here(reason),
    {
        let failure = DecodeFailure { path: Vec::new(), reason };
        assert(failure.path.deep_view() =~= Seq::empty());
        failure
    }

    /// The failure of the field `key` of the value at hand.
    pub fn at(key: &str, reason: DecodeReason) -> (failure: Self)
        ensures
            failure.deep_view() == failed_at(key@, reason),
    {
        let mut path: Vec<PathStep> = Vec::new();
        path.push(PathStep::Key(String::from_str(key)));
        let failure = DecodeFailure { path, reason };
        assert(failure.path.deep_view() =~= seq![StepView::Key(key@)]);
        failure
    }

    /// The same failure seen from one level up: from the object that holds
    /// the failed value under `key`.
    pub fn within_key(self, key: &str) -> (outer: Self)
        ensures
            outer.deep_view() == below(StepView::Key(key@), self.deep_view()),
    {
        let mut path = self.path;
        let ghost inner = path.deep_view();
        path.insert(0, PathStep::Key(String::from_str(key)));
        let outer = DecodeFailure { path, reason: self.reason };
        assert(outer.path.deep_view() =~= seq![StepView::Key(key@)] + inner);
        outer
    }

    /// The same failure seen from one level up: from the array that holds
    /// the failed value at `index`.
    pub fn within_index(self, index: usize) -> (outer: Self)
        ensures
            outer.deep_view() == below(StepView::Index(index as nat), self.deep_view()),
    {
        let mut path = self.path;
        let ghost inner = path.deep_view();
        path.insert(0, PathStep::Index(index));
        let outer = DecodeFailure { path, reason: self.reason };
        assert(outer.path.deep_view() =~= seq![StepView::Index(index as nat)] + inner);
        outer
    }

    /// The path as text, such as `entries[3].miniSeries.wins`.
    pub fn path_string(&self) -> (text: String)
        ensures
            text@ == path_text(self.path.deep_view()),
    {
        let mut out = String::new();
        let mut i: usize = 0;
        assert(self.path.deep_view().take(0) =~= Seq::empty());
        while i < self.path.len()
            invariant
                i <= self.path.len(),
                out@ == path_text(self.path.deep_view().take(i as int)),
            decreases self.path.len() - i,
        {
            let ghost all = self.path.deep_view();
            let ghost before = out@;
            proof {
                assert(all.take(i + 1).drop_last() =~= all.take(i as int));
                assert(all.take(i + 1).last() == self.path@[i as int].deep_view());
            }
            match &self.path[i] {
                PathStep::Key(key) => {
                    if i > 0 {
                        push_char(&mut out, '.');
                    }
                    out.append(key.as_str());
                    assert(i == 0 ==> before + key@ =~= key@);
                },
                PathStep::Index(index) => {
                    push_char(&mut out, '[');
                    push_decimal(&mut out, *index as u64);
                    push_char(&mut out, ']');
                },
            }
            assert(out@ =~= path_text(all.take(i + 1)));
            i += 1;
        }
        assert(self.path.deep_view().take(i as int) =~= self.path.deep_view());
        out
    }
}

/// Why a call gave no value.
#[derive(Clone, Debug, PartialEq, Eq)]
pub enum Failure {
    /// No response arrived.
    Transport(TransportKind),
    /// A response arrived with a status outside 200 to 299.
    HttpStatus(u16),
    /// A successful response arrived, but its payload does not fit.
    Decode(DecodeFailure),
    /// The resource does not exist.
    NotFound,
}

/// The result of an operation: the resource, or why there is none.
pub type ApiResult<T> = Result<T, Failure>;

/// A failure as plain data.
pub enum FailureView {
    Transport(TransportKind),
    HttpStatus(u16),
    Decode(DecodeFailureView),
    NotFound,
}

impl DeepView for Failure {
    type V = FailureView;

    open spec fn deep_view(&self) -> FailureView {
        match self {
            Failure::Transport(kind) => FailureView::Transport(*kind),
            Failure::HttpStatus(status) => FailureView::HttpStatus(*status),
            Failure::Decode(failure) => FailureView::Decode(failure.deep_view()),
            Failure::NotFound => FailureView::NotFound,
        }
    }
}

/// Whether a status asks the caller to come back later: too many requests,
/// or a fault on the server's side.
pub open spec fn is_retryable_status(status: u16) -> bool {
    status == 429 || 500 <= status <= 599
}

impl FailureView {
    /// Whether the same call may succeed if it is made again later.
    pub open spec fn is_retryable(self) -> bool {
        match self {
            FailureView::Transport(_) => true,
            FailureView::HttpStatus(status) => is_retryable_status(status),
            FailureView::Decode(_) => false,
            FailureView::NotFound => false,
        }
    }
}

impl Failure {
    /// Whether the same call may succeed if it is made again later.
    ///
    /// Transport failures are; of the HTTP statuses, 429 and the 5xx range
    /// are; a payload that does not fit and an absent resource are not.
    pub fn is_retryable(&self) -> (retry: bool)
        ensures
            retry == self.deep_view().is_retryable(),
    {
        match self {
            Failure::Transport(_) => true,
            Failure::HttpStatus(status) => *status == 429 || (500 <= *status && *status <= 599),
            Failure::Decode(_) => false,
            Failure::NotFound => false,
        }
    }

    /// The HTTP status that the failure carries, if it is one of that kind.
    pub fn status(&self) -> (status: Option<u16>)
        ensures
            status == match self.deep_view() {
                FailureView::HttpStatus(code) => Some(code),
                _ => None,
            },
    {
        match self {
            Failure::HttpStatus(status) => Some(*status),
            _ => None,
        }
    }
}

} // verus!
