//! Requests: what is sent where, composed without any network access.
//!
//! A request names a host (derived from a region), a versioned resource
//! path, the identifiers that follow it as path segments, the query
//! parameters that the caller supplied, and the credential. Identifiers,
//! query values and the credential are percent-encoded when the request is
//! composed, so that no text a caller passes can change the shape of the URL.

use vstd::prelude::*;
use vstd::string::*;
use vstd::utf8::*;
use crate::encoding::{
    decode_text, encode_text, is_inert, lemma_encoded_is_inert, lemma_identifier_round_trip,
    percent_encode,
};
use crate::region::routing::{resolve, RoutingRegion};
use crate::region::server::ServerRegion;
use crate::text::push_char;

verus! {

/// The region whose host a request goes to.
#[derive(Clone, Copy, Debug, PartialEq, Eq, Structural)]
pub enum Host {
    /// The host of one server cluster.
    Platform(ServerRegion),
    /// The host of a continental grouping.
    Routing(RoutingRegion),
}

/// The families of resources, which differ in the kind of host they live on.
#[derive(Clone, Copy, Debug, PartialEq, Eq, Structural)]
pub enum ResourceFamily {
    Account,
    Summoner,
    League,
    Match,
}

impl ResourceFamily {
    /// Whether the resources of the family are kept per continent rather than
    /// per server cluster.
    pub open spec fn is_routed(self) -> bool {
        self == Self::Account || self == Self::Match
    }

    /// The host that serves the family's resources for players of `platform`.
    pub open spec fn host_of(self, platform: ServerRegion) -> Host {
        if self.is_routed() {
            Host::Routing(resolve(platform))
        } else {
            Host::Platform(platform)
        }
    }

    /// Selects the host that serves the family's resources for players of
    /// `platform`: the platform's own host, or that of its routing region.
    pub fn host_for(&self, platform: ServerRegion) -> (host: Host)
        ensures
            host == self.host_of(platform),
    {
        match self {
            Self::Account | Self::Match => Host::Routing(RoutingRegion::from_server(&platform)),
            Self::Summoner | Self::League => Host::Platform(platform),
        }
    }
}

impl Host {
    /// The region code that starts the host name.
    pub open spec fn code(self) -> Seq<char> {
        match self {
            Self::Platform(server) => server.code(),
            Self::Routing(routing) => routing.code(),
        }
    }

    /// The full host name: the region code, a dot and the API domain.
    pub open spec fn name(self) -> Seq<char> {
        self.code() + ".api.riotgames.com"@
    }

    /// The region code that starts the host name.
    pub fn as_str(&self) -> (text: &'static str)
        ensures
            text@ == self.code(),
    {
        match self {
            Self::Platform(server) => server.as_str(),
            Self::Routing(routing) => routing.as_str(),
        }
    }

    /// The full host name.
    pub fn to_string(&self) -> (text: String)
        ensures
            text@ == self.name(),
    {
        let mut out = String::from_str(self.as_str());
        out.append(".api.riotgames.com");
        out
    }
}

/// A query parameter that an operation knows, with the value that the caller
/// gave for it, if any.
#[derive(Clone, Debug, PartialEq, Eq)]
pub struct QueryParam {
    pub key: String,
    pub value: Option<String>,
}

impl DeepView for QueryParam {
    type V = (Seq<char>, Option<Seq<char>>);

    open spec fn deep_view(&self) -> Self::V {
        (
            self.key@,
            match self.value {
                Some(text) => Some(text@),
                None => None,
            },
        )
    }
}

impl QueryParam {
    /// A parameter with the value that the caller gave.
    pub fn new(key: &str, value: Option<String>) -> (param: Self)
        ensures
            param.deep_view() == (
                key@,
                match value {
                    Some(text) => Some(text@),
                    None => None,
                },
            ),
    {
        QueryParam { key: String::from_str(key), value }
    }
}

/// A query parameter as it is sent: the key and the percent-encoded value.
#[derive(Clone, Debug, PartialEq, Eq)]
pub struct QueryPair {
    pub key: String,
    pub value: String,
}

impl DeepView for QueryPair {
    type V = (Seq<char>, Seq<char>);

    open spec fn deep_view(&self) -> Self::V {
        (self.key@, self.value@)
    }
}

/// Whether the caller supplied a value for a parameter: an absent value and
/// an empty one both count as none.
pub open spec fn is_supplied(param: (Seq<char>, Option<Seq<char>>)) -> bool {
    param.1 matches Some(text) && text.len() > 0
}

/// The pairs that are sent for a list of parameters: one pair for each
/// supplied parameter, in the order of the list, with the value encoded.
pub open spec fn emitted(params: Seq<(Seq<char>, Option<Seq<char>>)>) -> Seq<
    (Seq<char>, Seq<char>),
>
    decreases params.len(),
{
    if params.len() == 0 {
        Seq::empty()
    } else if is_supplied(params.last()) {
        emitted(params.drop_last()).push((params.last().0, encode_text(params.last().1->0)))
    } else {
        emitted(params.drop_last())
    }
}

/// The place in the emitted list that the parameter at `index` takes if it is
/// supplied: the number of supplied parameters before it.
pub open spec fn slot(params: Seq<(Seq<char>, Option<Seq<char>>)>, index: int) -> int {
    emitted(params.take(index)).len() as int
}

/// What a request holds, as plain text.
pub struct RequestView {
    /// The full host name.
    pub host: Seq<char>,
    /// The versioned resource path, starting with a slash.
    pub path: Seq<char>,
    /// The percent-encoded identifiers that follow the path, in order.
    pub segments: Seq<Seq<char>>,
    /// The emitted query parameters, in order, values percent-encoded.
    pub query: Seq<(Seq<char>, Seq<char>)>,
    /// The percent-encoded credential.
    pub credential: Seq<char>,
}

/// The request that a host, a path, identifiers, parameters and a credential
/// compose.
pub open spec fn composed(
    host: Host,
    path: Seq<char>,
    identifiers: Seq<Seq<char>>,
    params: Seq<(Seq<char>, Option<Seq<char>>)>,
    credential: Seq<char>,
) -> RequestView {
    RequestView {
        host: host.name(),
        path,
        segments: identifiers.map_values(|identifier: Seq<char>| encode_text(identifier)),
        query: emitted(params),
        credential: encode_text(credential),
    }
}

/// The segments of a path, each behind a slash.
pub open spec fn joined_segments(segments: Seq<Seq<char>>) -> Seq<char>
    decreases segments.len(),
{
    if segments.len() == 0 {
        Seq::empty()
    } else {
        joined_segments(segments.drop_last()) + seq!['/'] + segments.last()
    }
}

/// The emitted query pairs, each written as `key=value&`.
pub open spec fn joined_query(pairs: Seq<(Seq<char>, Seq<char>)>) -> Seq<char>
    decreases pairs.len(),
{
    if pairs.len() == 0 {
        Seq::empty()
    } else {
        joined_query(pairs.drop_last()) + pairs.last().0 + seq!['='] + pairs.last().1 + seq!['&']
    }
}

/// The URL of a request: always HTTPS, the credential always the last
/// parameter of the query.
pub open spec fn rendered(request: RequestView) -> Seq<char> {
    "https://"@ + request.host + request.path + joined_segments(request.segments) + seq!['?']
        + joined_query(request.query) + "api_key="@ + request.credential
}

impl RequestView {
    /// Whether nothing that a caller passed in can change the shape of the
    /// URL: every path segment, every query value and the credential are
    /// inert.
    pub open spec fn is_well_formed(self) -> bool {
        &&& forall|i: int| 0 <= i < self.segments.len() ==> is_inert(#[trigger] self.segments[i])
        &&& forall|i: int| 0 <= i < self.query.len() ==> is_inert((#[trigger] self.query[i]).1)
        &&& is_inert(self.credential)
    }
}

/// Every path segment of a composed request, once percent-decoded, gives
/// back the identifier it was made from, byte for byte and so character for
/// character.
pub proof fn lemma_segment_round_trip(
    host: Host,
    path: Seq<char>,
    identifiers: Seq<Seq<char>>,
    params: Seq<(Seq<char>, Option<Seq<char>>)>,
    credential: Seq<char>,
    index: int,
)
    requires
        0 <= index < identifiers.len(),
    ensures
        composed(host, path, identifiers, params, credential).segments.len() == identifiers.len(),
        decode_text(composed(host, path, identifiers, params, credential).segments[index])
            == Some(encode_utf8(identifiers[index])),
        decode_utf8(encode_utf8(identifiers[index])) == identifiers[index],
{
    lemma_identifier_round_trip(identifiers[index]);
}

/// Every value that is sent is inert.
pub proof fn lemma_emitted_is_inert(params: Seq<(Seq<char>, Option<Seq<char>>)>)
    ensures
        forall|i: int|
            0 <= i < emitted(params).len() ==> is_inert((#[trigger] emitted(params)[i]).1),
    decreases params.len(),
{
    if params.len() > 0 {
        let front = emitted(params.drop_last());
        lemma_emitted_is_inert(params.drop_last());
        if is_supplied(params.last()) {
            lemma_encoded_is_inert(encode_utf8(params.last().1->0));
        }
        assert forall|i: int| 0 <= i < emitted(params).len() implies is_inert(
            (#[trigger] emitted(params)[i]).1,
        ) by {
            if i < front.len() {
                assert(emitted(params)[i] == front[i]);
            }
        }
    }
}

/// Every composed request is well formed, whatever text went into it.
pub proof fn lemma_composed_is_well_formed(
    host: Host,
    path: Seq<char>,
    identifiers: Seq<Seq<char>>,
    params: Seq<(Seq<char>, Option<Seq<char>>)>,
    credential: Seq<char>,
)
    ensures
        composed(host, path, identifiers, params, credential).is_well_formed(),
{
    let request = composed(host, path, identifiers, params, credential);
    assert forall|i: int| 0 <= i < request.segments.len() implies is_inert(
        #[trigger] request.segments[i],
    ) by {
        lemma_encoded_is_inert(encode_utf8(identifiers[i]));
    }
    lemma_emitted_is_inert(params);
    lemma_encoded_is_inert(encode_utf8(credential));
}

/// The parameters before a later index emit at least what those before an
/// earlier index emit, and one pair more if the earlier one is supplied.
pub proof fn lemma_slot_monotone(
    params: Seq<(Seq<char>, Option<Seq<char>>)>,
    earlier: int,
    later: int,
)
    requires
        0 <= earlier <= later <= params.len(),
    ensures
        slot(params, earlier) <= slot(params, later),
        earlier < later && is_supplied(params[earlier]) ==> slot(params, earlier) < slot(
            params,
            later,
        ),
    decreases later - earlier,
{
    if earlier < later {
        lemma_slot_monotone(params, earlier, later - 1);
        assert(params.take(later).drop_last() =~= params.take(later - 1));
        assert(params.take(later).last() == params[later - 1]);
    }
}

/// What the first parameters emit is the start of what all of them emit.
pub proof fn lemma_emitted_prefix(params: Seq<(Seq<char>, Option<Seq<char>>)>, count: int)
    requires
        0 <= count <= params.len(),
    ensures
        slot(params, count) <= emitted(params).len(),
        forall|n: int|
            0 <= n < slot(params, count) ==> #[trigger] emitted(params)[n] == emitted(
                params.take(count),
            )[n],
    decreases params.len() - count,
{
    if count == params.len() {
        assert(params.take(count) =~= params);
    } else {
        lemma_emitted_prefix(params, count + 1);
        assert(params.take(count + 1).drop_last() =~= params.take(count));
    }
}

/// A supplied parameter is sent, with its own key and its encoded value, at
/// the place that the supplied parameters before it leave free.
pub proof fn lemma_supplied_is_emitted(params: Seq<(Seq<char>, Option<Seq<char>>)>, index: int)
    requires
        0 <= index < params.len(),
        is_supplied(params[index]),
    ensures
        0 <= slot(params, index) < emitted(params).len(),
        emitted(params)[slot(params, index)] == (
            params[index].0,
            encode_text(params[index].1->0),
        ),
{
    lemma_emitted_prefix(params, index + 1);
    assert(params.take(index + 1).drop_last() =~= params.take(index));
    assert(params.take(index + 1).last() == params[index]);
}

/// Every pair that is sent comes from a supplied parameter, and stands at
/// that parameter's place.
pub proof fn lemma_emitted_has_source(params: Seq<(Seq<char>, Option<Seq<char>>)>, place: int)
    requires
        0 <= place < emitted(params).len(),
    ensures
        exists|index: int|
            0 <= index < params.len() && is_supplied(#[trigger] params[index]) && slot(
                params,
                index,
            ) == place && emitted(params)[place] == (
                params[index].0,
                encode_text(params[index].1->0),
            ),
    decreases params.len(),
{
    let front = params.drop_last();
    let last = params.len() - 1;
    if is_supplied(params.last()) && place == emitted(front).len() {
        assert(params.take(last) =~= front);
        assert(is_supplied(params[last]) && slot(params, last) == place);
    } else {
        lemma_emitted_has_source(front, place);
        let index = choose|index: int|
            0 <= index < front.len() && is_supplied(#[trigger] front[index]) && slot(front, index)
                == place && emitted(front)[place] == (
                front[index].0,
                encode_text(front[index].1->0),
            );
        assert(front.take(index) =~= params.take(index));
        assert(is_supplied(params[index]) && slot(params, index) == place);
    }
}

/// A key for which the caller supplied no value never appears among the
/// pairs that are sent.
pub proof fn lemma_omitted_key_absent(
    params: Seq<(Seq<char>, Option<Seq<char>>)>,
    key: Seq<char>,
)
    requires
        forall|i: int| 0 <= i < params.len() && params[i].0 == key ==> !is_supplied(params[i]),
    ensures
        forall|n: int| 0 <= n < emitted(params).len() ==> (#[trigger] emitted(params)[n]).0 != key,
{
    assert forall|n: int| 0 <= n < emitted(params).len() implies (#[trigger] emitted(
        params,
    )[n]).0 != key by {
        lemma_emitted_has_source(params, n);
    }
}

/// Where no two parameters share a key, the key of a supplied parameter
/// appears exactly once among the pairs that are sent: at the parameter's
/// own place, with its encoded value.
pub proof fn lemma_supplied_key_once(params: Seq<(Seq<char>, Option<Seq<char>>)>, index: int)
    requires
        0 <= index < params.len(),
        is_supplied(params[index]),
        forall|a: int, b: int| 0 <= a < b < params.len() ==> params[a].0 != params[b].0,
    ensures
        0 <= slot(params, index) < emitted(params).len(),
        emitted(params)[slot(params, index)] == (
            params[index].0,
            encode_text(params[index].1->0),
        ),
        forall|n: int|
            0 <= n < emitted(params).len() && (#[trigger] emitted(params)[n]).0
                == params[index].0 ==> n == slot(params, index),
{
    lemma_supplied_is_emitted(params, index);
    assert forall|n: int|
        0 <= n < emitted(params).len() && (#[trigger] emitted(params)[n]).0
            == params[index].0 implies n == slot(params, index) by {
        lemma_emitted_has_source(params, n);
        let source = choose|source: int|
            0 <= source < params.len() && is_supplied(#[trigger] params[source]) && slot(
                params,
                source,
            ) == n && emitted(params)[n] == (
                params[source].0,
                encode_text(params[source].1->0),
            );
        if source < index {
            assert(params[source].0 != params[index].0);
        } else if index < source {
            assert(params[index].0 != params[source].0);
        }
    }
}

/// The pairs that are sent keep the order of the parameters, whichever of
/// them are supplied: of two supplied parameters, the earlier one is sent
/// first.
pub proof fn lemma_emitted_keeps_order(
    params: Seq<(Seq<char>, Option<Seq<char>>)>,
    earlier: int,
    later: int,
)
    requires
        0 <= earlier < later < params.len(),
        is_supplied(params[earlier]),
        is_supplied(params[later]),
    ensures
        0 <= slot(params, earlier) < slot(params, later) < emitted(params).len(),
        emitted(params)[slot(params, earlier)].0 == params[earlier].0,
        emitted(params)[slot(params, later)].0 == params[later].0,
{
    lemma_slot_monotone(params, earlier, later);
    lemma_supplied_is_emitted(params, earlier);
    lemma_supplied_is_emitted(params, later);
}

/// A composed request. It cannot be changed once built.
#[derive(Clone, Debug, PartialEq, Eq)]
pub struct RequestSpec {
    host: String,
    path: String,
    segments: Vec<String>,
    query: Vec<QueryPair>,
    credential: String,
}

impl View for RequestSpec {
    type V = RequestView;

    closed spec fn view(&self) -> RequestView {
        RequestView {
            host: self.host@,
            path: self.path@,
            segments: self.segments.deep_view(),
            query: self.query.deep_view(),
            credential: self.credential@,
        }
    }
}

impl RequestSpec {
    /// Composes a request.
    ///
    /// The host follows from the region. The identifiers become path
    /// segments in the order given, each percent-encoded. Of the parameters,
    /// those with a value are kept, in the order given, with the value
    /// percent-encoded; a parameter without a value, or with an empty one,
    /// leaves no trace. The credential is kept percent-encoded. The path and
    /// the keys of the parameters are the operation's own text and are taken
    /// as they are.
    pub fn build(
        host: Host,
        path: &str,
        identifiers: &Vec<&str>,
        params: &Vec<QueryParam>,
        credential: &str,
    ) -> (request: Self)
        ensures
            request@ == composed(
                host,
                path@,
                identifiers.deep_view(),
                params.deep_view(),
                credential@,
            ),
            request@.is_well_formed(),
    {
        proof {
            lemma_composed_is_well_formed(
                host,
                path@,
                identifiers.deep_view(),
                params.deep_view(),
                credential@,
            );
        }
        let mut segments: Vec<String> = Vec::new();
        let mut i: usize = 0;
        while i < identifiers.len()
            invariant
                i <= identifiers.len(),
                segments.len() == i,
                forall|j: int|
                    0 <= j < i ==> (#[trigger] segments@[j])@ == encode_text(identifiers@[j]@),
            decreases identifiers.len() - i,
        {
            segments.push(percent_encode(identifiers[i]));
            i += 1;
        }
        let mut query: Vec<QueryPair> = Vec::new();
        let mut k: usize = 0;
        assert(params.deep_view().take(0) =~= Seq::empty());
        while k < params.len()
            invariant
                k <= params.len(),
                query.deep_view() == emitted(params.deep_view().take(k as int)),
            decreases params.len() - k,
        {
            let ghost before = query.deep_view();
            let ghost all = params.deep_view();
            proof {
                assert(all.take(k + 1).drop_last() =~= all.take(k as int));
                assert(all.take(k + 1).last() == params@[k as int].deep_view());
            }
            let param = &params[k];
            match &param.value {
                Some(text) => {
                    if text.as_str().unicode_len() > 0 {
                        query.push(
                            QueryPair {
                                key: param.key.clone(),
                                value: percent_encode(text.as_str()),
                            },
                        );
                        assert(query.deep_view() =~= before.push(
                            (param.key@, encode_text(text@)),
                        ));
                    }
                },
                None => {},
            }
            k += 1;
        }
        assert(params.deep_view().take(k as int) =~= params.deep_view());
        let request = RequestSpec {
            host: host.to_string(),
            path: String::from_str(path),
            segments,
            query,
            credential: percent_encode(credential),
        };
        assert(request@.segments =~= identifiers.deep_view().map_values(
            |identifier: Seq<char>| encode_text(identifier),
        ));
        request
    }

    /// The full host name.
    pub fn host(&self) -> (text: &str)
        ensures
            text@ == self@.host,
    {
        self.host.as_str()
    }

    /// The versioned resource path.
    pub fn path(&self) -> (text: &str)
        ensures
            text@ == self@.path,
    {
        self.path.as_str()
    }

    /// The percent-encoded path segments, in order.
    pub fn segments(&self) -> (segments: &Vec<String>)
        ensures
            segments.deep_view() == self@.segments,
    {
        &self.segments
    }

    /// The emitted query parameters, in order.
    pub fn query(&self) -> (pairs: &Vec<QueryPair>)
        ensures
            pairs.deep_view() == self@.query,
    {
        &self.query
    }

    /// The percent-encoded credential.
    pub fn credential(&self) -> (text: &str)
        ensures
            text@ == self@.credential,
    {
        self.credential.as_str()
    }

    /// The URL of the request.
    pub fn url(&self) -> (url: String)
        ensures
            url@ == rendered(self@),
    {
        let mut out = String::from_str("https://");
        out.append(self.host.as_str());
        out.append(self.path.as_str());
        let ghost head = out@;
        let mut i: usize = 0;
        assert(self.segments.deep_view().take(0) =~= Seq::empty());
        assert(head + Seq::<char>::empty() =~= head);
        while i < self.segments.len()
            invariant
                i <= self.segments.len(),
                out@ == head + joined_segments(self.segments.deep_view().take(i as int)),
            decreases self.segments.len() - i,
        {
            let ghost all = self.segments.deep_view();
            let ghost before = out@;
            proof {
                assert(all.take(i + 1).drop_last() =~= all.take(i as int));
                assert(all.take(i + 1).last() == self.segments@[i as int]@);
            }
            push_char(&mut out, '/');
            out.append(self.segments[i].as_str());
            assert(out@ =~= head + joined_segments(all.take(i + 1)));
            i += 1;
        }
        assert(self.segments.deep_view().take(i as int) =~= self.segments.deep_view());
        push_char(&mut out, '?');
        let ghost stem = out@;
        let mut k: usize = 0;
        assert(self.query.deep_view().take(0) =~= Seq::empty());
        assert(stem + Seq::<char>::empty() =~= stem);
        while k < self.query.len()
            invariant
                k <= self.query.len(),
                out@ == stem + joined_query(self.query.deep_view().take(k as int)),
            decreases self.query.len() - k,
        {
            let ghost all = self.query.deep_view();
            proof {
                assert(all.take(k + 1).drop_last() =~= all.take(k as int));
                assert(all.take(k + 1).last() == self.query@[k as int].deep_view());
            }
            out.append(self.query[k].key.as_str());
            push_char(&mut out, '=');
            out.append(self.query[k].value.as_str());
            push_char(&mut out, '&');
            assert(out@ =~= stem + joined_query(all.take(k + 1)));
            k += 1;
        }
        assert(self.query.deep_view().take(k as int) =~= self.query.deep_view());
        out.append("api_key=");
        out.append(self.credential.as_str());
        out
    }
}

} // verus!
