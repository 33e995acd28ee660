//! What the authority reads of a request, and where in it a token is
//! looked for.

use vstd::prelude::*;
use vstd::string::*;
use actix_web::http::header::HeaderMap;
use crate::text::{bearer_token, bearer_token_spec, same_text};

verus! {

/// A name with its value: a cookie, a header or a parameter of the query.
#[derive(Debug, Clone, PartialEq, Eq)]
pub struct Field {
    pub name: String,
    pub value: String,
}

impl View for Field {
    type V = (Seq<char>, Seq<char>);

    open spec fn view(&self) -> (Seq<char>, Seq<char>) {
        (self.name@, self.value@)
    }
}

/// `actix_web::http::header::HeaderMap`: the headers of a request.
#[verifier::external_type_specification]
#[verifier::external_body]
pub struct ExHeaderMap(HeaderMap);

/// The part of a request in which tokens travel. The cookies stand in the
/// order in which the request gave them.
#[derive(Debug)]
pub struct ServiceRequest {
    /// The query string, still encoded, without the question mark.
    pub query: String,
    pub headers: HeaderMap,
    pub cookies: Vec<Field>,
}

/// A place in a request where a token may travel.
#[derive(Debug, Clone, Copy, PartialEq, Eq, Structural)]
pub enum TokenSource {
    /// A parameter of the query string, under the token's name.
    Query,
    /// A header under the token's name.
    Header,
    /// The `Authorization` header, as a bearer token.
    AuthorizationHeader,
    /// A cookie under the token's name.
    Cookie,
}

/// The names and values of a list of fields.
pub open spec fn pairs(fields: Seq<Field>) -> Seq<(Seq<char>, Seq<char>)> {
    fields.map_values(|f: Field| f@)
}

/// The value of the first of `fields` whose name is `wanted`.
pub open spec fn first_value(fields: Seq<(Seq<char>, Seq<char>)>, wanted: Seq<char>) -> Option<Seq<char>>
    decreases fields.len(),
{
    if fields.len() == 0 {
        None
    } else if fields[0].0 == wanted {
        Some(fields[0].1)
    } else {
        first_value(fields.drop_first(), wanted)
    }
}

/// What a header map holds: under the key of each name the values of
/// that name, in the order in which the map keeps them. A value that
/// cannot be read as text stands as `None`.
pub uninterp spec fn header_values(headers: HeaderMap) -> Map<Seq<char>, Seq<Option<Seq<char>>>>;

/// The key under which a header map keeps the headers of `name`: what
/// `HeaderName::from_str` makes of the name, which does not regard the
/// case of letters. A string that is no header name has none.
pub uninterp spec fn header_key(name: Seq<char>) -> Option<Seq<char>>;

/// A header map that holds nothing.
pub open spec fn no_headers() -> Map<Seq<char>, Seq<Option<Seq<char>>>> {
    Map::empty()
}

/// The first of the values that `values` holds under `key`: `Some(None)`
/// where that value cannot be read as text, and `None` where there is no
/// key or nothing under it.
pub open spec fn first_header(values: Map<Seq<char>, Seq<Option<Seq<char>>>>, key: Option<Seq<char>>) -> Option<
    Option<Seq<char>>,
> {
    match key {
        None => None,
        Some(key) => if values.dom().contains(key) && values[key].len() > 0 {
            Some(values[key][0])
        } else {
            None
        },
    }
}

/// The texts of a header that was looked up.
pub open spec fn header_view(r: Option<Option<String>>) -> Option<Option<Seq<char>>> {
    match r {
        None => None,
        Some(None) => Some(None),
        Some(Some(text)) => Some(Some(text@)),
    }
}

/// `HeaderMap::new` of `actix_web`: a map that holds nothing.
pub assume_specification[ HeaderMap::new ]() -> (r: HeaderMap)
    ensures
        header_values(r) == no_headers(),
;

/// Calls `HeaderMap::get` with `name` and reads the value found with
/// `HeaderValue::to_str`. The map gives the first of the values that it
/// keeps under the key of the name, and nothing for a string that is no
/// header name; `to_str` gives the text of a value of visible ASCII
/// characters, blanks and tabs, and fails on any other.
#[verifier::external_body]
fn header_get(headers: &HeaderMap, name: &str) -> (r: Option<Option<String>>)
    ensures
        header_view(r) == first_header(header_values(*headers), header_key(name@)),
{
    headers.get(name).map(|value| value.to_str().ok().map(str::to_owned))
}

/// The name of the header that carries a bearer token.
pub open spec fn authorization_name() -> Seq<char> {
    seq!['a', 'u', 't', 'h', 'o', 'r', 'i', 'z', 'a', 't', 'i', 'o', 'n']
}

/// The pairs that `form_urlencoded::parse` reads from a query string.
pub uninterp spec fn query_pairs(query: Seq<char>) -> Seq<(Seq<char>, Seq<char>)>;

/// Calls `form_urlencoded::parse` on the bytes of `query` and collects the
/// decoded pairs in their order. The result depends on the string alone,
/// and an empty string holds no pair.
#[verifier::external_body]
fn parse_query(query: &str) -> (r: Vec<Field>)
    ensures
        pairs(r@) == query_pairs(query@),
        query@.len() == 0 ==> r@.len() == 0,
{
    form_urlencoded::parse(query.as_bytes())
        .map(|(name, value)| Field { name: name.into_owned(), value: value.into_owned() })
        .collect()
}

/// Finds the value of the first of `fields` whose name is `wanted`.
pub fn find_value<'a>(fields: &'a Vec<Field>, wanted: &str) -> (r: Option<&'a str>)
    ensures
        r matches Some(value) ==> first_value(pairs(fields@), wanted@) == Some(value@),
        r is None ==> first_value(pairs(fields@), wanted@) is None,
{
    let mut i: usize = 0;
    assert(pairs(fields@).skip(0) =~= pairs(fields@));
    while i < fields.len()
        invariant
            i <= fields.len(),
            first_value(pairs(fields@), wanted@) == first_value(pairs(fields@).skip(i as int), wanted@),
        decreases fields.len() - i,
    {
        let field = &fields[i];
        let found = same_text(field.name.as_str(), wanted);
        proof {
            let rest = pairs(fields@).skip(i as int);
            assert(rest[0] == fields@[i as int]@);
            assert(rest.drop_first() =~= pairs(fields@).skip(i + 1));
        }
        if found {
            return Some(field.value.as_str());
        }
        i += 1;
    }
    None
}

impl ServiceRequest {
    /// A request with the given query string and no header or cookie.
    pub fn new(query: String) -> (r: Self)
        ensures
            r.query == query,
            header_values(r.headers) == no_headers(),
            r.cookies@.len() == 0,
    {
        ServiceRequest { query, headers: HeaderMap::new(), cookies: Vec::new() }
    }

    /// Whether the request holds nothing at all: an empty query string, no
    /// header and no cookie.
    pub open spec fn is_bare(self) -> bool {
        self.query@.len() == 0 && header_values(self.headers) == no_headers() && self.cookies@.len() == 0
    }

    /// The value of the cookie `name`.
    pub open spec fn cookie_spec(self, name: Seq<char>) -> Option<Seq<char>> {
        first_value(pairs(self.cookies@), name)
    }

    /// The value of the header `name`: the first that the map holds for
    /// the name, where it can be read as text.
    pub open spec fn header_spec(self, name: Seq<char>) -> Option<Seq<char>> {
        match first_header(header_values(self.headers), header_key(name)) {
            Some(Some(value)) => Some(value),
            _ => None,
        }
    }

    /// The bearer token of the `Authorization` header.
    pub open spec fn bearer_spec(self) -> Option<Seq<char>> {
        match self.header_spec(authorization_name()) {
            Some(value) => bearer_token_spec(value),
            None => None,
        }
    }

    /// The value of the parameter `name` of the query string.
    pub open spec fn query_spec(self, name: Seq<char>) -> Option<Seq<char>> {
        first_value(query_pairs(self.query@), name)
    }

    /// The token that travels at `source` under `name`.
    pub open spec fn token_at(self, source: TokenSource, name: Seq<char>) -> Option<Seq<char>> {
        match source {
            TokenSource::Query => self.query_spec(name),
            TokenSource::Header => self.header_spec(name),
            TokenSource::AuthorizationHeader => self.bearer_spec(),
            TokenSource::Cookie => self.cookie_spec(name),
        }
    }

    /// The token that the first of `sources` that holds one gives.
    pub open spec fn token_spec(self, sources: Seq<TokenSource>, name: Seq<char>) -> Option<Seq<char>>
        decreases sources.len(),
    {
        if sources.len() == 0 {
            None
        } else {
            match self.token_at(sources[0], name) {
                Some(token) => Some(token),
                None => self.token_spec(sources.drop_first(), name),
            }
        }
    }

    /// Looks for the cookie `name`.
    pub fn cookie(&self, name: &str) -> (r: Option<String>)
        ensures
            text_of(r) == self.cookie_spec(name@),
    {
        match find_value(&self.cookies, name) {
            Some(value) => Some(value.to_owned()),
            None => None,
        }
    }

    /// Looks for the header `name`. A value that cannot be read as text
    /// counts as absent.
    pub fn header(&self, name: &str) -> (r: Option<String>)
        ensures
            text_of(r) == self.header_spec(name@),
    {
        match header_get(&self.headers, name) {
            Some(Some(value)) => Some(value),
            _ => None,
        }
    }

    /// Looks for a bearer token in the `Authorization` header. A value
    /// that does not start with the word `Bearer` counts as absent.
    pub fn bearer(&self) -> (r: Option<String>)
        ensures
            text_of(r) == self.bearer_spec(),
    {
        proof {
            reveal_strlit("authorization");
            assert("authorization"@ =~= authorization_name());
        }
        match self.header("authorization") {
            Some(value) => bearer_token(value.as_str()),
            None => None,
        }
    }

    /// Looks for the parameter `name` in the query string.
    pub fn query_parameter(&self, name: &str) -> (r: Option<String>)
        ensures
            text_of(r) == self.query_spec(name@),
            self.query@.len() == 0 ==> r is None,
    {
        let parameters = parse_query(self.query.as_str());
        match find_value(&parameters, name) {
            Some(value) => Some(value.to_owned()),
            None => None,
        }
    }

    /// Looks for a token at one source.
    pub fn token_from(&self, source: TokenSource, name: &str) -> (r: Option<String>)
        ensures
            text_of(r) == self.token_at(source, name@),
            self.is_bare() ==> r is None,
    {
        match source {
            TokenSource::Query => self.query_parameter(name),
            TokenSource::Header => self.header(name),
            TokenSource::AuthorizationHeader => self.bearer(),
            TokenSource::Cookie => self.cookie(name),
        }
    }

    /// Looks for a token at each of `sources` in turn: the first source
    /// that holds one decides, and a source that holds none passes on to
    /// the next.
    pub fn extract(&self, name: &str, sources: &Vec<TokenSource>) -> (r: Option<String>)
        ensures
            text_of(r) == self.token_spec(sources@, name@),
            self.is_bare() ==> r is None,
    {
        let mut i: usize = 0;
        assert(sources@.skip(0) =~= sources@);
        while i < sources.len()
            invariant
                i <= sources.len(),
                self.token_spec(sources@, name@) == self.token_spec(sources@.skip(i as int), name@),
            decreases sources.len() - i,
        {
            let found = self.token_from(sources[i], name);
            proof {
                let rest = sources@.skip(i as int);
                assert(rest[0] == sources@[i as int]);
                assert(rest.drop_first() =~= sources@.skip(i + 1));
            }
            if found.is_some() {
                return found;
            }
            i += 1;
        }
        None
    }
}

/// Where several sources hold a token, the one that stands first in the
/// order decides: the token found is that of the first source that holds
/// one, whatever the sources behind it hold.
pub proof fn lemma_first_source_decides(
    request: ServiceRequest,
    sources: Seq<TokenSource>,
    name: Seq<char>,
    first: int,
)
    requires
        0 <= first < sources.len(),
        request.token_at(sources[first], name) is Some,
        forall|k: int| 0 <= k < first ==> request.token_at(#[trigger] sources[k], name) is None,
    ensures
        request.token_spec(sources, name) == request.token_at(sources[first], name),
    decreases first,
{
    if first > 0 {
        let rest = sources.drop_first();
        assert forall|k: int| 0 <= k < first - 1 implies request.token_at(#[trigger] rest[k], name) is None by {
            assert(rest[k] == sources[k + 1]);
        }
        assert(rest[first - 1] == sources[first]);
        lemma_first_source_decides(request, rest, name, first - 1);
    }
}

/// A request that holds no token at any of the sources gives none.
pub proof fn lemma_no_source_no_token(request: ServiceRequest, sources: Seq<TokenSource>, name: Seq<char>)
    requires
        forall|k: int| 0 <= k < sources.len() ==> request.token_at(#[trigger] sources[k], name) is None,
    ensures
        request.token_spec(sources, name) is None,
    decreases sources.len(),
{
    if sources.len() > 0 {
        let rest = sources.drop_first();
        assert forall|k: int| 0 <= k < rest.len() implies request.token_at(#[trigger] rest[k], name) is None by {
            assert(rest[k] == sources[k + 1]);
        }
        lemma_no_source_no_token(request, rest, name);
    }
}

/// A token that was found stands at one of the sources: none is made up.
pub proof fn lemma_token_comes_from_a_source(request: ServiceRequest, sources: Seq<TokenSource>, name: Seq<char>)
    requires
        request.token_spec(sources, name) is Some,
    ensures
        exists|k: int|
            0 <= k < sources.len() && request.token_at(#[trigger] sources[k], name) == request.token_spec(
                sources,
                name,
            ),
    decreases sources.len(),
{
    if request.token_at(sources[0], name) is Some {
        assert(request.token_at(sources[0], name) == request.token_spec(sources, name));
    } else {
        let rest = sources.drop_first();
        lemma_token_comes_from_a_source(request, rest, name);
        let k = choose|k: int|
            0 <= k < rest.len() && request.token_at(#[trigger] rest[k], name) == request.token_spec(rest, name);
        assert(rest[k] == sources[k + 1]);
    }
}

/// The text of a value that was found, or nothing.
pub open spec fn text_of(r: Option<String>) -> Option<Seq<char>> {
    match r {
        Some(text) => Some(text@),
        None => None,
    }
}

} // verus!
