//! Schemas: how values are decoded from JSON payloads and encoded to them.
//!
//! Every decoder says where it failed and why: a key that is absent is a
//! missing field; a value of another type than the schema asks for is a
//! mismatch, and so is a number outside the range of the field's type. An
//! optional field may be absent or `null`; it is never filled with a default.
//! Members that the schema does not know are passed over.
//!
//! Encoding is the way back: what a value encodes to decodes to that value.

use vstd::prelude::*;
use vstd::string::*;
use crate::failure::{
    below, failed_at, failed_here, DecodeFailure, DecodeFailureView, DecodeReason, StepView,
};
use crate::json::{lookup, Json, JsonView};

verus! {

/// A type with a JSON schema: its values are decoded from payloads and
/// encoded to them.
pub trait Schema: DeepView + Sized {
    /// The value that a payload describes, or where and why it fails to
    /// describe one.
    spec fn decoded(json: JsonView) -> Result<Self::V, DecodeFailureView>;

    /// The payload that describes a value.
    spec fn encoded(value: Self::V) -> JsonView;

    /// Decodes a value from a payload.
    fn decode(json: &Json) -> (outcome: Result<Self, DecodeFailure>)
        ensures
            match outcome {
                Ok(value) => Self::decoded(json.deep_view()) == Ok::<Self::V, DecodeFailureView>(
                    value.deep_view(),
                ),
                Err(failure) => Self::decoded(json.deep_view()) == Err::<
                    Self::V,
                    DecodeFailureView,
                >(failure.deep_view()),
            },
    ;

    /// Encodes a value as a payload.
    fn encode(&self) -> (json: Json)
        ensures
            json.deep_view() == Self::encoded(self.deep_view()),
    ;
}

/// A schema with the proof that decoding undoes encoding.
pub trait RoundTrip: Schema {
    /// The payload of a value describes that value. No value is encoded as
    /// `null`, which stands for absence.
    proof fn lemma_round_trip(value: Self::V)
        ensures
            Self::decoded(Self::encoded(value)) == Ok::<Self::V, DecodeFailureView>(value),
            !(Self::encoded(value) is Null),
    ;
}

/// The outcome for a value of the wrong type.
pub open spec fn mismatch<T>() -> Result<T, DecodeFailureView> {
    Err(failed_here(DecodeReason::TypeMismatch))
}

/// An integer payload between two bounds.
pub open spec fn decoded_int(json: JsonView, low: int, high: int) -> Result<
    int,
    DecodeFailureView,
> {
    match json {
        JsonView::Int(n) => if low <= n <= high {
            Ok(n)
        } else {
            mismatch()
        },
        _ => mismatch(),
    }
}

/// The member of an object that a required field names.
pub open spec fn member(object: JsonView, key: Seq<char>) -> Result<JsonView, DecodeFailureView> {
    match object {
        JsonView::Object(members) => match lookup(members, key) {
            Some(value) => Ok(value),
            None => Err(failed_at(key, DecodeReason::MissingField)),
        },
        _ => mismatch(),
    }
}

/// The member of an object that an optional field names: none where the key
/// is absent or holds `null`.
pub open spec fn optional_member(object: JsonView, key: Seq<char>) -> Result<
    Option<JsonView>,
    DecodeFailureView,
> {
    match object {
        JsonView::Object(members) => match lookup(members, key) {
            Some(JsonView::Null) => Ok(None),
            Some(value) => Ok(Some(value)),
            None => Ok(None),
        },
        _ => mismatch(),
    }
}

/// The outcome of decoding a member, seen from the object that holds it
/// under `key`.
pub open spec fn nested<T>(key: Seq<char>, inner: Result<T, DecodeFailureView>) -> Result<
    T,
    DecodeFailureView,
> {
    match inner {
        Ok(value) => Ok(value),
        Err(failure) => Err(below(StepView::Key(key), failure)),
    }
}

/// A required field: the key must be there, and its value must decode.
#[verifier::opaque]
pub open spec fn required<T: Schema>(object: JsonView, key: Seq<char>) -> Result<
    T::V,
    DecodeFailureView,
> {
    match member(object, key) {
        Ok(value) => nested(key, T::decoded(value)),
        Err(failure) => Err(failure),
    }
}

/// An optional field: where the key is there and holds more than `null`,
/// its value must decode.
#[verifier::opaque]
pub open spec fn optional<T: Schema>(object: JsonView, key: Seq<char>) -> Result<
    Option<T::V>,
    DecodeFailureView,
> {
    match optional_member(object, key) {
        Ok(Some(value)) => match nested(key, T::decoded(value)) {
            Ok(inner) => Ok(Some(inner)),
            Err(failure) => Err(failure),
        },
        Ok(None) => Ok(None),
        Err(failure) => Err(failure),
    }
}

/// A required field whose key is absent from an object fails as a missing
/// field, and the failure names the key.
pub proof fn lemma_absent_required_is_missing<T: Schema>(
    members: Seq<(Seq<char>, JsonView)>,
    key: Seq<char>,
)
    requires
        lookup(members, key) is None,
    ensures
        required::<T>(JsonView::Object(members), key) == Err::<T::V, DecodeFailureView>(
            failed_at(key, DecodeReason::MissingField),
        ),
{
    reveal(required);
}

/// An optional field whose key is absent from an object, or holds `null`,
/// decodes to absence.
pub proof fn lemma_absent_optional_is_none<T: Schema>(
    members: Seq<(Seq<char>, JsonView)>,
    key: Seq<char>,
)
    requires
        lookup(members, key) is None || lookup(members, key) == Some(JsonView::Null),
    ensures
        optional::<T>(JsonView::Object(members), key) == Ok::<Option<T::V>, DecodeFailureView>(
            None,
        ),
{
    reveal(optional);
}

/// A field whose value does not decode fails where the value fails, seen
/// from the object: the key comes first in the path.
pub proof fn lemma_failed_member_is_named<T: Schema>(
    members: Seq<(Seq<char>, JsonView)>,
    key: Seq<char>,
    value: JsonView,
)
    requires
        lookup(members, key) == Some(value),
        T::decoded(value) is Err,
    ensures
        required::<T>(JsonView::Object(members), key) == Err::<T::V, DecodeFailureView>(
            below(StepView::Key(key), T::decoded(value)->Err_0),
        ),
        !(value is Null) ==> optional::<T>(JsonView::Object(members), key) == Err::<
            Option<T::V>,
            DecodeFailureView,
        >(below(StepView::Key(key), T::decoded(value)->Err_0)),
{
    reveal(required);
    reveal(optional);
}

/// The elements of an array, each decoded in turn. The first element that
/// fails gives the failure, with its position in front of the path.
pub open spec fn decoded_items<T>(
    items: Seq<JsonView>,
    decode: spec_fn(JsonView) -> Result<T, DecodeFailureView>,
) -> Result<Seq<T>, DecodeFailureView>
    decreases items.len(),
{
    if items.len() == 0 {
        Ok(Seq::empty())
    } else {
        match decoded_items(items.drop_last(), decode) {
            Ok(front) => match decode(items.last()) {
                Ok(value) => Ok(front.push(value)),
                Err(failure) => Err(below(StepView::Index((items.len() - 1) as nat), failure)),
            },
            Err(failure) => Err(failure),
        }
    }
}

/// Once the first elements of an array fail to decode, the whole array fails
/// in the same way.
pub proof fn lemma_items_failure_stays<T>(
    items: Seq<JsonView>,
    decode: spec_fn(JsonView) -> Result<T, DecodeFailureView>,
    count: int,
)
    requires
        0 <= count <= items.len(),
        decoded_items(items.take(count), decode) is Err,
    ensures
        decoded_items(items, decode) == decoded_items(items.take(count), decode),
    decreases items.len() - count,
{
    if count == items.len() {
        assert(items.take(count) =~= items);
    } else {
        assert(items.take(count + 1).drop_last() =~= items.take(count));
        lemma_items_failure_stays(items, decode, count + 1);
    }
}

/// The elements that a list encodes to decode to the list.
pub proof fn lemma_items_round_trip<T: RoundTrip>(values: Seq<T::V>)
    ensures
        decoded_items(
            values.map_values(|item: T::V| T::encoded(item)),
            |item: JsonView| T::decoded(item),
        ) == Ok::<Seq<T::V>, DecodeFailureView>(values),
    decreases values.len(),
{
    let items = values.map_values(|item: T::V| T::encoded(item));
    if values.len() == 0 {
        assert(values =~= Seq::empty());
    } else {
        let front = values.drop_last();
        lemma_items_round_trip::<T>(front);
        T::lemma_round_trip(values.last());
        assert(items.drop_last() =~= front.map_values(|item: T::V| T::encoded(item)));
        assert(front.push(values.last()) =~= values);
    }
}

/// The payload of an optional value: `null` stands for absence.
pub open spec fn encoded_option<T: Schema>(value: Option<T::V>) -> JsonView {
    match value {
        Some(inner) => T::encoded(inner),
        None => JsonView::Null,
    }
}

/// A required field reads back the value that was encoded under its key.
pub proof fn lemma_required_reads<T: RoundTrip>(
    members: Seq<(Seq<char>, JsonView)>,
    key: Seq<char>,
    value: T::V,
)
    requires
        lookup(members, key) == Some(T::encoded(value)),
    ensures
        required::<T>(JsonView::Object(members), key) == Ok::<T::V, DecodeFailureView>(value),
{
    reveal(required);
    T::lemma_round_trip(value);
}

/// An optional field reads back the value that was encoded under its key,
/// and absence where `null` was.
pub proof fn lemma_optional_reads<T: RoundTrip>(
    members: Seq<(Seq<char>, JsonView)>,
    key: Seq<char>,
    value: Option<T::V>,
)
    requires
        lookup(members, key) == Some(encoded_option::<T>(value)),
    ensures
        optional::<T>(JsonView::Object(members), key) == Ok::<Option<T::V>, DecodeFailureView>(
            value,
        ),
{
    reveal(optional);
    if let Some(inner) = value {
        T::lemma_round_trip(inner);
    }
}

/// Encodes an optional value: `null` stands for absence.
pub fn encode_option<T: Schema>(value: &Option<T>) -> (json: Json)
    ensures
        json.deep_view() == encoded_option::<T>(value.deep_view()),
{
    match value {
        Some(inner) => inner.encode(),
        None => Json::Null,
    }
}

impl Schema for String {
    open spec fn decoded(json: JsonView) -> Result<Seq<char>, DecodeFailureView> {
        match json {
            JsonView::Str(text) => Ok(text),
            _ => mismatch(),
        }
    }

    open spec fn encoded(value: Seq<char>) -> JsonView {
        JsonView::Str(value)
    }

    fn decode(json: &Json) -> (outcome: Result<Self, DecodeFailure>) {
        match json {
            Json::Str(text) => Ok(text.clone()),
            _ => Err(DecodeFailure::here(DecodeReason::TypeMismatch)),
        }
    }

    fn encode(&self) -> (json: Json) {
        Json::Str(self.clone())
    }
}

impl RoundTrip for String {
    proof fn lemma_round_trip(value: Seq<char>) {
    }
}

impl Schema for bool {
    open spec fn decoded(json: JsonView) -> Result<bool, DecodeFailureView> {
        match json {
            JsonView::Bool(b) => Ok(b),
            _ => mismatch(),
        }
    }

    open spec fn encoded(value: bool) -> JsonView {
        JsonView::Bool(value)
    }

    fn decode(json: &Json) -> (outcome: Result<Self, DecodeFailure>) {
        match json {
            Json::Bool(b) => Ok(*b),
            _ => Err(DecodeFailure::here(DecodeReason::TypeMismatch)),
        }
    }

    fn encode(&self) -> (json: Json) {
        Json::Bool(*self)
    }
}

impl RoundTrip for bool {
    proof fn lemma_round_trip(value: bool) {
    }
}

/// Decodes an integer between two bounds.
pub fn decode_int(json: &Json, low: i128, high: i128) -> (outcome: Result<i128, DecodeFailure>)
    ensures
        match outcome {
            Ok(n) => decoded_int(json.deep_view(), low as int, high as int) == Ok::<
                int,
                DecodeFailureView,
            >(n as int) && low <= n <= high,
            Err(failure) => decoded_int(json.deep_view(), low as int, high as int) == Err::<
                int,
                DecodeFailureView,
            >(failure.deep_view()),
        },
{
    match json {
        Json::Int(n) => if low <= *n && *n <= high {
            Ok(*n)
        } else {
            Err(DecodeFailure::here(DecodeReason::TypeMismatch))
        },
        _ => Err(DecodeFailure::here(DecodeReason::TypeMismatch)),
    }
}

impl Schema for u32 {
    open spec fn encoded(value: u32) -> JsonView {
        JsonView::Int(value as int)
    }

    fn encode(&self) -> (json: Json) {
        Json::Int(*self as i128)
    }

    open spec fn decoded(json: JsonView) -> Result<u32, DecodeFailureView> {
        match decoded_int(json, 0, u32::MAX as int) {
            Ok(n) => Ok(n as u32),
            Err(failure) => Err(failure),
        }
    }

    fn decode(json: &Json) -> (outcome: Result<Self, DecodeFailure>) {
        let n = decode_int(json, 0, 4294967295)?;
        Ok(n as u32)
    }
}

impl RoundTrip for u32 {
    proof fn lemma_round_trip(value: u32) {
        assert(Self::decoded(JsonView::Int(value as int)) == Ok::<u32, DecodeFailureView>(value));
    }
}

impl Schema for u64 {
    open spec fn encoded(value: u64) -> JsonView {
        JsonView::Int(value as int)
    }

    fn encode(&self) -> (json: Json) {
        Json::Int(*self as i128)
    }

    open spec fn decoded(json: JsonView) -> Result<u64, DecodeFailureView> {
        match decoded_int(json, 0, u64::MAX as int) {
            Ok(n) => Ok(n as u64),
            Err(failure) => Err(failure),
        }
    }

    fn decode(json: &Json) -> (outcome: Result<Self, DecodeFailure>) {
        let n = decode_int(json, 0, 18446744073709551615)?;
        Ok(n as u64)
    }
}

impl RoundTrip for u64 {
    proof fn lemma_round_trip(value: u64) {
        assert(Self::decoded(JsonView::Int(value as int)) == Ok::<u64, DecodeFailureView>(value));
    }
}

impl Schema for i64 {
    open spec fn encoded(value: i64) -> JsonView {
        JsonView::Int(value as int)
    }

    fn encode(&self) -> (json: Json) {
        Json::Int(*self as i128)
    }

    open spec fn decoded(json: JsonView) -> Result<i64, DecodeFailureView> {
        match decoded_int(json, i64::MIN as int, i64::MAX as int) {
            Ok(n) => Ok(n as i64),
            Err(failure) => Err(failure),
        }
    }

    fn decode(json: &Json) -> (outcome: Result<Self, DecodeFailure>) {
        let n = decode_int(json, -9223372036854775808, 9223372036854775807)?;
        Ok(n as i64)
    }
}

impl RoundTrip for i64 {
    proof fn lemma_round_trip(value: i64) {
        assert(Self::decoded(JsonView::Int(value as int)) == Ok::<i64, DecodeFailureView>(value));
    }
}

/// A JSON number of any kind, for fields that may hold a fraction.
#[derive(Clone, Debug, PartialEq, Eq)]
pub enum Number {
    /// A number without fraction or exponent.
    Whole(i128),
    /// Any other number, as the decimal text that stands for it.
    Fraction(String),
}

/// A JSON number as plain data.
pub enum NumberView {
    Whole(int),
    Fraction(Seq<char>),
}

impl DeepView for Number {
    type V = NumberView;

    open spec fn deep_view(&self) -> NumberView {
        match self {
            Number::Whole(n) => NumberView::Whole(*n as int),
            Number::Fraction(text) => NumberView::Fraction(text@),
        }
    }
}

impl Schema for Number {
    open spec fn decoded(json: JsonView) -> Result<NumberView, DecodeFailureView> {
        match json {
            JsonView::Int(n) => Ok(NumberView::Whole(n)),
            JsonView::Real(text) => Ok(NumberView::Fraction(text)),
            _ => mismatch(),
        }
    }

    open spec fn encoded(value: NumberView) -> JsonView {
        match value {
            NumberView::Whole(n) => JsonView::Int(n),
            NumberView::Fraction(text) => JsonView::Real(text),
        }
    }

    fn decode(json: &Json) -> (outcome: Result<Self, DecodeFailure>) {
        match json {
            Json::Int(n) => Ok(Number::Whole(*n)),
            Json::Real(text) => Ok(Number::Fraction(text.clone())),
            _ => Err(DecodeFailure::here(DecodeReason::TypeMismatch)),
        }
    }

    fn encode(&self) -> (json: Json) {
        match self {
            Number::Whole(n) => Json::Int(*n),
            Number::Fraction(text) => Json::Real(text.clone()),
        }
    }
}

impl RoundTrip for Number {
    proof fn lemma_round_trip(value: NumberView) {
    }
}

impl<T: Schema> Schema for Vec<T> {
    open spec fn decoded(json: JsonView) -> Result<Seq<T::V>, DecodeFailureView> {
        match json {
            JsonView::Array(items) => decoded_items(items, |item: JsonView| T::decoded(item)),
            _ => mismatch(),
        }
    }

    open spec fn encoded(value: Seq<T::V>) -> JsonView {
        JsonView::Array(value.map_values(|item: T::V| T::encoded(item)))
    }

    fn encode(&self) -> (json: Json) {
        let mut items: Vec<Json> = Vec::new();
        let mut i: usize = 0;
        while i < self.len()
            invariant
                i <= self.len(),
                items.len() == i,
                forall|j: int|
                    0 <= j < i ==> (#[trigger] items@[j]).deep_view() == T::encoded(
                        self@[j].deep_view(),
                    ),
            decreases self.len() - i,
        {
            items.push(self[i].encode());
            i += 1;
        }
        let json = Json::Array(items);
        assert(json.deep_view()->Array_0 =~= self.deep_view().map_values(
            |item: T::V| T::encoded(item),
        ));
        json
    }

    fn decode(json: &Json) -> (outcome: Result<Self, DecodeFailure>) {
        match json {
            Json::Array(items) => {
                assert(items.deep_view() =~= json.deep_view()->Array_0);
                decode_items::<T>(items)
            },
            _ => Err(DecodeFailure::here(DecodeReason::TypeMismatch)),
        }
    }
}

impl<T: RoundTrip> RoundTrip for Vec<T> {
    proof fn lemma_round_trip(value: Seq<T::V>) {
        lemma_items_round_trip::<T>(value);
    }
}

/// Decodes the elements of an array in turn.
pub fn decode_items<T: Schema>(items: &Vec<Json>) -> (outcome: Result<Vec<T>, DecodeFailure>)
    ensures
        match outcome {
            Ok(values) => decoded_items(items.deep_view(), |item: JsonView| T::decoded(item))
                == Ok::<Seq<T::V>, DecodeFailureView>(values.deep_view()),
            Err(failure) => decoded_items(items.deep_view(), |item: JsonView| T::decoded(item))
                == Err::<Seq<T::V>, DecodeFailureView>(failure.deep_view()),
        },
{
    let ghost all = items.deep_view();
    let ghost decode = |item: JsonView| T::decoded(item);
    let mut values: Vec<T> = Vec::new();
    let mut i: usize = 0;
    assert(all.take(0) =~= Seq::empty());
    assert(values.deep_view() =~= Seq::empty());
    while i < items.len()
        invariant
            i <= items.len(),
            all == items.deep_view(),
            decode == |item: JsonView| T::decoded(item),
            decoded_items(all.take(i as int), decode) == Ok::<Seq<T::V>, DecodeFailureView>(
                values.deep_view(),
            ),
        decreases items.len() - i,
    {
        let ghost before = values.deep_view();
        proof {
            assert(all.take(i + 1).drop_last() =~= all.take(i as int));
            assert(all.take(i + 1).last() == items@[i as int].deep_view());
        }
        match T::decode(&items[i]) {
            Ok(value) => {
                let ghost view = value.deep_view();
                values.push(value);
                assert(values.deep_view() =~= before.push(view));
            },
            Err(failure) => {
                proof {
                    assert(all.take(items.len() as int) =~= all);
                    lemma_items_failure_stays(all, decode, i + 1);
                }
                return Err(failure.within_index(i));
            },
        }
        i += 1;
    }
    assert(all.take(i as int) =~= all);
    Ok(values)
}

/// The members of an object as plain data.
pub open spec fn members_view(members: Seq<(String, Json)>) -> Seq<(Seq<char>, JsonView)> {
    Seq::new(members.len(), |i: int| (members[i].0@, members[i].1.deep_view()))
}

/// An empty list of members, to be filled by pushing.
pub fn no_members() -> (members: Vec<(String, Json)>)
    ensures
        members_view(members@) == Seq::<(Seq<char>, JsonView)>::empty(),
{
    let members: Vec<(String, Json)> = Vec::new();
    assert(members_view(members@) =~= Seq::empty());
    members
}

/// Adds the member for a required field.
pub fn push_member<T: Schema>(members: &mut Vec<(String, Json)>, key: &str, value: &T)
    ensures
        members_view(final(members)@) == members_view(old(members)@).push(
            (key@, T::encoded(value.deep_view())),
        ),
{
    members.push((String::from_str(key), value.encode()));
    assert(members_view(members@) =~= members_view(old(members)@).push(
        (key@, T::encoded(value.deep_view())),
    ));
}

/// Adds the member for an optional field.
pub fn push_optional_member<T: Schema>(
    members: &mut Vec<(String, Json)>,
    key: &str,
    value: &Option<T>,
)
    ensures
        members_view(final(members)@) == members_view(old(members)@).push(
            (key@, encoded_option::<T>(value.deep_view())),
        ),
{
    members.push((String::from_str(key), encode_option::<T>(value)));
    assert(members_view(members@) =~= members_view(old(members)@).push(
        (key@, encoded_option::<T>(value.deep_view())),
    ));
}

/// The object with the given members.
pub fn object_of(members: Vec<(String, Json)>) -> (json: Json)
    ensures
        json.deep_view() == JsonView::Object(members_view(members@)),
{
    let json = Json::Object(members);
    assert(json.deep_view()->Object_0 =~= members_view(members@));
    json
}

/// Finds the member of an object that a required field names.
pub fn read_member<'a>(object: &'a Json, key: &str) -> (outcome: Result<&'a Json, DecodeFailure>)
    ensures
        match outcome {
            Ok(value) => member(object.deep_view(), key@) == Ok::<JsonView, DecodeFailureView>(
                value.deep_view(),
            ),
            Err(failure) => member(object.deep_view(), key@) == Err::<JsonView, DecodeFailureView>(
                failure.deep_view(),
            ),
        },
{
    match object {
        Json::Object(_) => match object.member(key) {
            Some(value) => Ok(value),
            None => Err(DecodeFailure::at(key, DecodeReason::MissingField)),
        },
        _ => Err(DecodeFailure::here(DecodeReason::TypeMismatch)),
    }
}

/// Finds the member of an object that an optional field names.
pub fn read_optional_member<'a>(object: &'a Json, key: &str) -> (outcome: Result<
    Option<&'a Json>,
    DecodeFailure,
>)
    ensures
        match outcome {
            Ok(Some(value)) => optional_member(object.deep_view(), key@) == Ok::<
                Option<JsonView>,
                DecodeFailureView,
            >(Some(value.deep_view())),
            Ok(None) => optional_member(object.deep_view(), key@) == Ok::<
                Option<JsonView>,
                DecodeFailureView,
            >(None),
            Err(failure) => optional_member(object.deep_view(), key@) == Err::<
                Option<JsonView>,
                DecodeFailureView,
            >(failure.deep_view()),
        },
{
    match object {
        Json::Object(_) => match object.member(key) {
            Some(Json::Null) => Ok(None),
            Some(value) => Ok(Some(value)),
            None => Ok(None),
        },
        _ => Err(DecodeFailure::here(DecodeReason::TypeMismatch)),
    }
}

/// Reads a required field.
pub fn read_required<T: Schema>(object: &Json, key: &str) -> (outcome: Result<T, DecodeFailure>)
    ensures
        match outcome {
            Ok(value) => required::<T>(object.deep_view(), key@) == Ok::<T::V, DecodeFailureView>(
                value.deep_view(),
            ),
            Err(failure) => required::<T>(object.deep_view(), key@) == Err::<
                T::V,
                DecodeFailureView,
            >(failure.deep_view()),
        },
{
    reveal(required);
    let value = read_member(object, key)?;
    match T::decode(value) {
        Ok(inner) => Ok(inner),
        Err(failure) => Err(failure.within_key(key)),
    }
}

/// Reads an optional field.
pub fn read_optional<T: Schema>(object: &Json, key: &str) -> (outcome: Result<
    Option<T>,
    DecodeFailure,
>)
    ensures
        match outcome {
            Ok(value) => optional::<T>(object.deep_view(), key@) == Ok::<
                Option<T::V>,
                DecodeFailureView,
            >(value.deep_view()),
            Err(failure) => optional::<T>(object.deep_view(), key@) == Err::<
                Option<T::V>,
                DecodeFailureView,
            >(failure.deep_view()),
        },
{
    reveal(optional);
    match read_optional_member(object, key)? {
        Some(value) => match T::decode(value) {
            Ok(inner) => Ok(Some(inner)),
            Err(failure) => Err(failure.within_key(key)),
        },
        None => Ok(None),
    }
}

} // verus!
