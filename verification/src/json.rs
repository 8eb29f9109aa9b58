//! JSON values as plain data, and the reading of JSON text.
//!
//! Text is read by `serde_json`. What it yields is copied into [`Json`], a
//! tree of plain values that the decoders of this crate work on.

use serde_json::Value;
use vstd::prelude::*;
use vstd::string::*;
use crate::failure::{failed_here, DecodeFailure, DecodeReason};
use crate::text::str_eq;

verus! {

/// A JSON value.
#[derive(Debug, PartialEq, Eq)]
pub enum Json {
    Null,
    Bool(bool),
    /// A number without fraction or exponent.
    Int(i128),
    /// Any other number, kept as the decimal text that stands for it.
    Real(String),
    Str(String),
    Array(Vec<Json>),
    /// The members of an object, in the order they are held. Where a key
    /// occurs more than once, the last occurrence counts.
    Object(Vec<(String, Json)>),
}

/// A JSON value as mathematical data.
pub enum JsonView {
    Null,
    Bool(bool),
    Int(int),
    Real(Seq<char>),
    Str(Seq<char>),
    Array(Seq<JsonView>),
    Object(Seq<(Seq<char>, JsonView)>),
}

/// The mathematical value of a [`Json`].
pub open spec fn json_view(json: Json) -> JsonView
    decreases json,
{
    match json {
        Json::Null => JsonView::Null,
        Json::Bool(b) => JsonView::Bool(b),
        Json::Int(n) => JsonView::Int(n as int),
        Json::Real(text) => JsonView::Real(text@),
        Json::Str(text) => JsonView::Str(text@),
        Json::Array(items) => JsonView::Array(
            Seq::new(
                items@.len(),
                |i: int|
                    if 0 <= i < items@.len() {
                        json_view(items@[i])
                    } else {
                        JsonView::Null
                    },
            ),
        ),
        Json::Object(members) => JsonView::Object(
            Seq::new(
                members@.len(),
                |i: int|
                    if 0 <= i < members@.len() {
                        (members@[i].0@, json_view(members@[i].1))
                    } else {
                        (Seq::empty(), JsonView::Null)
                    },
            ),
        ),
    }
}

impl DeepView for Json {
    type V = JsonView;

    open spec fn deep_view(&self) -> JsonView {
        json_view(*self)
    }
}

/// The value that an object's members hold under a key: that of the last
/// member with the key, if there is one.
pub open spec fn lookup(members: Seq<(Seq<char>, JsonView)>, key: Seq<char>) -> Option<JsonView>
    decreases members.len(),
{
    if members.len() == 0 {
        None
    } else if members.last().0 == key {
        Some(members.last().1)
    } else {
        lookup(members.drop_last(), key)
    }
}

/// A lookup among members of which the last was pushed either finds that
/// one or goes on among those before it.
pub proof fn lemma_lookup_push(
    members: Seq<(Seq<char>, JsonView)>,
    last: (Seq<char>, JsonView),
    key: Seq<char>,
)
    ensures
        lookup(members.push(last), key) == if last.0 == key {
            Some(last.1)
        } else {
            lookup(members, key)
        },
{
    assert(members.push(last).drop_last() =~= members);
}

/// The same for every list of members at once.
pub proof fn lemma_lookup_unfolds()
    ensures
        forall|members: Seq<(Seq<char>, JsonView)>, last: (Seq<char>, JsonView), key: Seq<char>|
            #[trigger] lookup(members.push(last), key) == if last.0 == key {
                Some(last.1)
            } else {
                lookup(members, key)
            },
        forall|key: Seq<char>| #[trigger] lookup(Seq::empty(), key) is None,
{
    assert forall|
        members: Seq<(Seq<char>, JsonView)>,
        last: (Seq<char>, JsonView),
        key: Seq<char>,
    | #[trigger] lookup(members.push(last), key) == if last.0 == key {
        Some(last.1)
    } else {
        lookup(members, key)
    } by {
        lemma_lookup_push(members, last, key);
    }
}

/// `serde_json::Value`, carried from the reader to the copier. Nothing of
/// its inside is known here.
#[verifier::external_type_specification]
#[verifier::external_body]
pub struct ExValue(serde_json::Value);

/// `serde_json::Error`, of which only its presence is used.
#[verifier::external_type_specification]
#[verifier::external_body]
pub struct ExError(serde_json::Error);

/// What `serde_json::from_str` makes of a text: the value that the text
/// stands for, or nothing where the text is not one JSON value.
pub uninterp spec fn parsed_text(text: Seq<char>) -> Option<JsonView>;

/// What a `serde_json::Value` holds.
pub uninterp spec fn value_content(value: serde_json::Value) -> JsonView;

/// Calls `serde_json::from_str` to read one JSON value from a text. The
/// outcome depends on the text alone; the contract names it.
#[verifier::external_body]
fn read_value(text: &str) -> (outcome: Result<serde_json::Value, serde_json::Error>)
    ensures
        match outcome {
            Ok(value) => parsed_text(text@) == Some(value_content(value)),
            Err(_) => parsed_text(text@) is None,
        },
{
    serde_json::from_str::<serde_json::Value>(text)
}

/// Copies a `serde_json::Value` into a [`Json`], variant by variant. An
/// integer that `as_u64` or `as_i64` gives becomes `Int`; any other number
/// becomes `Real` with the text that `serde_json` prints for it.
#[verifier::external_body]
fn copy_value(value: &serde_json::Value) -> (json: Json)
    ensures
        json.deep_view() == value_content(*value),
{
    match value {
        Value::Null => Json::Null,
        Value::Bool(b) => Json::Bool(*b),
        Value::Number(n) => match (n.as_u64(), n.as_i64()) {
            (Some(u), _) => Json::Int(i128::from(u)),
            (_, Some(i)) => Json::Int(i128::from(i)),
            _ => Json::Real(n.to_string()),
        },
        Value::String(s) => Json::Str(s.clone()),
        Value::Array(a) => Json::Array(a.iter().map(copy_value).collect()),
        Value::Object(m) => Json::Object(
            m.iter().map(|(k, v)| (k.clone(), copy_value(v))).collect(),
        ),
    }
}

impl Clone for Json {
    /// A copy that stands for the same value.
    fn clone(&self) -> (copy: Self)
        ensures
            copy.deep_view() == self.deep_view(),
        decreases self,
    {
        match self {
            Json::Null => Json::Null,
            Json::Bool(b) => Json::Bool(*b),
            Json::Int(n) => Json::Int(*n),
            Json::Real(text) => Json::Real(text.clone()),
            Json::Str(text) => Json::Str(text.clone()),
            Json::Array(items) => {
                let mut copies: Vec<Json> = Vec::new();
                let mut i: usize = 0;
                while i < items.len()
                    invariant
                        i <= items.len(),
                        copies.len() == i,
                        *self == Json::Array(*items),
                        forall|j: int|
                            0 <= j < i ==> (#[trigger] copies@[j]).deep_view()
                                == items@[j].deep_view(),
                    decreases items.len() - i,
                {
                    proof {
                        vstd::std_specs::vec::axiom_vec_index_decreases(*items, i as int);
                        assert(self->Array_0 == *items);
                        assert(decreases_to!(*self => self->Array_0));
                    }
                    copies.push(items[i].clone());
                    i += 1;
                }
                let copy = Json::Array(copies);
                assert(copy.deep_view()->Array_0 =~= self.deep_view()->Array_0);
                copy
            },
            Json::Object(members) => {
                let mut copies: Vec<(String, Json)> = Vec::new();
                let mut i: usize = 0;
                while i < members.len()
                    invariant
                        i <= members.len(),
                        copies.len() == i,
                        *self == Json::Object(*members),
                        forall|j: int|
                            0 <= j < i ==> (#[trigger] copies@[j]).0@ == members@[j].0@
                                && copies@[j].1.deep_view() == members@[j].1.deep_view(),
                    decreases members.len() - i,
                {
                    proof {
                        vstd::std_specs::vec::axiom_vec_index_decreases(*members, i as int);
                        assert(self->Object_0 == *members);
                        assert(decreases_to!(*self => self->Object_0));
                    }
                    copies.push((members[i].0.clone(), members[i].1.clone()));
                    i += 1;
                }
                let copy = Json::Object(copies);
                assert(copy.deep_view()->Object_0 =~= self.deep_view()->Object_0);
                copy
            },
        }
    }
}

impl Json {
    /// Reads one JSON value from a text.
    ///
    /// A text that is not one JSON value gives a failure at the root with
    /// the reason `Malformed`.
    pub fn parse(text: &str) -> (outcome: Result<Json, DecodeFailure>)
        ensures
            match outcome {
                Ok(json) => parsed_text(text@) == Some(json.deep_view()),
                Err(failure) => parsed_text(text@) is None && failure.deep_view() == failed_here(
                    DecodeReason::Malformed,
                ),
            },
    {
        match read_value(text) {
            Ok(value) => Ok(copy_value(&value)),
            Err(_) => Err(DecodeFailure::here(DecodeReason::Malformed)),
        }
    }

    /// The value that the object holds under `key`, if this is an object and
    /// it has such a member.
    pub fn member(&self, key: &str) -> (found: Option<&Json>)
        ensures
            match self.deep_view() {
                JsonView::Object(members) => match found {
                    Some(value) => lookup(members, key@) == Some(value.deep_view()),
                    None => lookup(members, key@) is None,
                },
                _ => found is None,
            },
    {
        match self {
            Json::Object(members) => {
                let ghost all = self.deep_view()->Object_0;
                let mut i: usize = members.len();
                assert(all.take(i as int) =~= all);
                while i > 0
                    invariant
                        i <= members.len(),
                        self.deep_view() == JsonView::Object(all),
                        all.len() == members@.len(),
                        forall|j: int|
                            0 <= j < all.len() ==> #[trigger] all[j] == (
                                members@[j].0@,
                                members@[j].1.deep_view(),
                            ),
                        lookup(all, key@) == lookup(all.take(i as int), key@),
                    decreases i,
                {
                    i -= 1;
                    proof {
                        assert(all.take(i + 1).drop_last() =~= all.take(i as int));
                        assert(all.take(i + 1).last() == all[i as int]);
                    }
                    if str_eq(members[i].0.as_str(), key) {
                        return Some(&members[i].1);
                    }
                }
                None
            },
            _ => None,
        }
    }
}

} // verus!
