use super::{orientation_text, Orientation};
use crate::endpoint::query::{
    bool_opt, decimal_opt, decimal_text, encode, encoded_query, is_plain_key, join, join_text,
    opt_bool, opt_decimal, opt_field, opt_text, pairs_view, push_field, values_escaped,
};
use crate::endpoint::{get as get_request, request_headers, Method, Request, ToQuery};
use crate::API_URL;
use vstd::prelude::*;

verus! {

/// Path of the random-photo endpoint under the API root.
pub const RANDOM_PATH: &'static str = "photos/random";

/// The flattened parameters of a random-photo request, in the order in which
/// they are sent. A builder stage holds some of them; the others are absent.
pub struct RandomParams {
    /// Only featured photos.
    pub featured: Option<bool>,
    /// Only photos by this user.
    pub username: Option<String>,
    /// Only photos of this width.
    pub w: Option<usize>,
    /// Only photos of this height.
    pub h: Option<usize>,
    /// Only photos of this orientation.
    pub orientation: Option<Orientation>,
    /// Only photos in these collections, ids joined by commas.
    pub collection: Option<String>,
    /// Only photos that match this search text.
    pub query: Option<String>,
    /// The number of photos asked for.
    pub count: Option<usize>,
}

/// The text of an optional orientation.
pub open spec fn opt_orientation(o: Option<Orientation>) -> Option<Seq<char>> {
    match o {
        Some(x) => Some(orientation_text(x)),
        None => None,
    }
}

impl RandomParams {
    /// The parameters of a fresh builder: none is set.
    pub open spec fn none() -> RandomParams {
        RandomParams {
            featured: None,
            username: None,
            w: None,
            h: None,
            orientation: None,
            collection: None,
            query: None,
            count: None,
        }
    }

    /// The five base filters of `self`, with the given restriction and count.
    pub open spec fn narrowed(
        self,
        collection: Option<String>,
        query: Option<String>,
        count: Option<usize>,
    ) -> RandomParams {
        RandomParams {
            featured: self.featured,
            username: self.username,
            w: self.w,
            h: self.h,
            orientation: self.orientation,
            collection,
            query,
            count,
        }
    }
}

impl ToQuery for RandomParams {
    open spec fn query_fields_spec(&self) -> Seq<(Seq<char>, Seq<char>)> {
        opt_field("featured"@, opt_bool(self.featured)) + opt_field("username"@, opt_text(self.username))
            + opt_field("w"@, opt_decimal(self.w)) + opt_field("h"@, opt_decimal(self.h)) + opt_field(
            "orientation"@,
            opt_orientation(self.orientation),
        ) + opt_field("collection"@, opt_text(self.collection)) + opt_field(
            "query"@,
            opt_text(self.query),
        ) + opt_field("count"@, opt_decimal(self.count))
    }

    fn query_fields(&self) -> (r: Vec<(String, String)>) {
        let mut v: Vec<(String, String)> = Vec::new();
        proof {
            reveal_strlit("featured");
            assert(is_plain_key("featured"@));
            reveal_strlit("username");
            assert(is_plain_key("username"@));
            reveal_strlit("w");
            assert(is_plain_key("w"@));
            reveal_strlit("h");
            assert(is_plain_key("h"@));
            reveal_strlit("orientation");
            assert(is_plain_key("orientation"@));
            reveal_strlit("collection");
            assert(is_plain_key("collection"@));
            reveal_strlit("query");
            assert(is_plain_key("query"@));
            reveal_strlit("count");
            assert(is_plain_key("count"@));
        }
        push_field(&mut v, "featured", bool_opt(self.featured));
        proof {
            assert(pairs_view(v@) =~= opt_field("featured"@, opt_bool(self.featured)));
        }
        push_field(&mut v, "username", self.username.clone());
        push_field(&mut v, "w", decimal_opt(self.w));
        push_field(&mut v, "h", decimal_opt(self.h));
        let o = match self.orientation {
            Some(x) => Some(x.name()),
            None => None,
        };
        push_field(&mut v, "orientation", o);
        push_field(&mut v, "collection", self.collection.clone());
        push_field(&mut v, "query", self.query.clone());
        push_field(&mut v, "count", decimal_opt(self.count));
        v
    }

    fn to_query(&self) -> (r: String) {
        encode(&self.query_fields())
    }
}


/// The absolute URI of the random-photo endpoint.
pub open spec fn random_uri() -> Seq<char> {
    API_URL@ + RANDOM_PATH@
}

fn random_uri_string() -> (r: String)
    ensures
        r@ == random_uri(),
{
    let mut uri = String::from_str(API_URL);
    uri.append(RANDOM_PATH);
    uri
}

/// Request builder for random photos. Any of the five base filters may be
/// set, in any order and any number of times; then the request may be
/// restricted by a search text or by collections, or given a count.
pub struct Random {
    featured: Option<bool>,
    username: Option<String>,
    w: Option<usize>,
    h: Option<usize>,
    orientation: Option<Orientation>,
}

/// Stage of a request for a number of random photos: nothing more can be set.
pub struct RandomCount {
    rand: Random,
    count: usize,
}

/// Stage of a request restricted to photos that match a search text: only the
/// count can still be set.
pub struct RandomQuery {
    rand: Random,
    query: String,
}

/// Stage of a request for a number of random photos that match a search text:
/// nothing more can be set.
pub struct RandomQueryCount {
    rand: RandomQuery,
    count: usize,
}

/// Stage of a request restricted to photos in some collections: only the count
/// can still be set.
pub struct RandomCollection {
    rand: Random,
    collection: String,
}

/// Stage of a request for a number of random photos in some collections:
/// nothing more can be set.
pub struct RandomCollectionCount {
    rand: RandomCollection,
    count: usize,
}

impl View for Random {
    type V = RandomParams;

    closed spec fn view(&self) -> RandomParams {
        RandomParams {
            featured: self.featured,
            username: self.username,
            w: self.w,
            h: self.h,
            orientation: self.orientation,
            collection: None,
            query: None,
            count: None,
        }
    }
}

impl View for RandomQuery {
    type V = RandomParams;

    closed spec fn view(&self) -> RandomParams {
        self.rand@.narrowed(None, Some(self.query), None)
    }
}

impl View for RandomCollection {
    type V = RandomParams;

    closed spec fn view(&self) -> RandomParams {
        self.rand@.narrowed(Some(self.collection), None, None)
    }
}

impl RandomCount {
    /// A count of zero is never asked for.
    #[verifier::type_invariant]
    spec fn count_is_positive(&self) -> bool {
        self.count != 0
    }
}

impl View for RandomCount {
    type V = RandomParams;

    closed spec fn view(&self) -> RandomParams {
        self.rand@.narrowed(None, None, Some(self.count))
    }
}

impl RandomQueryCount {
    /// A count of zero is never asked for.
    #[verifier::type_invariant]
    spec fn count_is_positive(&self) -> bool {
        self.count != 0
    }
}

impl View for RandomQueryCount {
    type V = RandomParams;

    closed spec fn view(&self) -> RandomParams {
        self.rand@.narrowed(None, Some(self.rand.query), Some(self.count))
    }
}

impl RandomCollectionCount {
    /// A count of zero is never asked for.
    #[verifier::type_invariant]
    spec fn count_is_positive(&self) -> bool {
        self.count != 0
    }
}

impl View for RandomCollectionCount {
    type V = RandomParams;

    closed spec fn view(&self) -> RandomParams {
        self.rand@.narrowed(Some(self.rand.collection), None, Some(self.count))
    }
}

impl Default for Random {
    fn default() -> (r: Random)
        ensures
            r@ == RandomParams::none(),
    {
        Random { featured: None, username: None, w: None, h: None, orientation: None }
    }
}

impl Random {
    /// Restricts the photos to featured ones (or not).
    pub fn featured(self, feat: bool) -> (r: Random)
        ensures
            r@ == (RandomParams { featured: Some(feat), ..self@ }),
    {
        let mut s = self;
        s.featured = Some(feat);
        s
    }

    /// Restricts the photos to those by the given user.
    pub fn username(self, username: String) -> (r: Random)
        ensures
            r@ == (RandomParams { username: Some(username), ..self@ }),
    {
        let mut s = self;
        s.username = Some(username);
        s
    }

    /// Restricts the photos to those of the given width.
    pub fn w(self, w: usize) -> (r: Random)
        ensures
            r@ == (RandomParams { w: Some(w), ..self@ }),
    {
        let mut s = self;
        s.w = Some(w);
        s
    }

    /// Restricts the photos to those of the given height.
    pub fn h(self, h: usize) -> (r: Random)
        ensures
            r@ == (RandomParams { h: Some(h), ..self@ }),
    {
        let mut s = self;
        s.h = Some(h);
        s
    }

    /// Restricts the photos to those of the given orientation.
    pub fn orientation(self, orientation: Orientation) -> (r: Random)
        ensures
            r@ == (RandomParams { orientation: Some(orientation), ..self@ }),
    {
        let mut s = self;
        s.orientation = Some(orientation);
        s
    }

    /// Restricts the photos to those that match the search text. Only the
    /// count can be set after this.
    pub fn query(self, query: String) -> (r: RandomQuery)
        ensures
            r@ == self@.narrowed(None, Some(query), None),
    {
        RandomQuery { rand: self, query }
    }

    /// Restricts the photos to those in the given collections, whose ids are
    /// sent joined by commas. Only the count can be set after this.
    pub fn collection(self, collection: Vec<String>) -> (r: RandomCollection)
        ensures
            r@ == self@.narrowed(r@.collection, None, None),
            r@.collection is Some,
            r@.collection->0@ == join_text(collection@.map_values(|c: String| c@), ","@),
    {
        let joined = join(&collection, ",");
        RandomCollection { rand: self, collection: joined }
    }

    /// Asks for `count` photos. Nothing can be set after this.
    pub fn count(self, count: usize) -> (r: RandomCount)
        requires
            count != 0,
        ensures
            r@ == self@.narrowed(None, None, Some(count)),
    {
        RandomCount { rand: self, count }
    }

    /// The flattened parameters.
    pub fn params(self) -> (r: RandomParams)
        ensures
            r == self@,
    {
        RandomParams {
            featured: self.featured,
            username: self.username,
            w: self.w,
            h: self.h,
            orientation: self.orientation,
            collection: None,
            query: None,
            count: None,
        }
    }

    /// The GET request for one random photo with these parameters.
    pub fn get(self, auth: &str) -> (r: Request)
        ensures
            r.method == Method::Get,
            r.uri@ == random_uri() + encoded_query(self@.query_fields_spec()),
            values_escaped(self@.query_fields_spec()),
            pairs_view(r.headers@) == request_headers(auth@),
    {
        let p = self.params();
        get_request(&p, auth, random_uri_string().as_str())
    }
}

impl RandomQuery {
    /// Asks for `count` photos. Nothing can be set after this.
    pub fn count(self, count: usize) -> (r: RandomQueryCount)
        requires
            count != 0,
        ensures
            r@ == self@.narrowed(None, self@.query, Some(count)),
    {
        RandomQueryCount { rand: self, count }
    }

    /// The flattened parameters.
    pub fn params(self) -> (r: RandomParams)
        ensures
            r == self@,
    {
        let mut p = self.rand.params();
        p.query = Some(self.query);
        p
    }

    /// The GET request for one random photo that matches the search text.
    pub fn get(self, auth: &str) -> (r: Request)
        ensures
            r.method == Method::Get,
            r.uri@ == random_uri() + encoded_query(self@.query_fields_spec()),
            values_escaped(self@.query_fields_spec()),
            pairs_view(r.headers@) == request_headers(auth@),
    {
        let p = self.params();
        get_request(&p, auth, random_uri_string().as_str())
    }
}

impl RandomCollection {
    /// Asks for `count` photos. Nothing can be set after this.
    pub fn count(self, count: usize) -> (r: RandomCollectionCount)
        requires
            count != 0,
        ensures
            r@ == self@.narrowed(self@.collection, None, Some(count)),
    {
        RandomCollectionCount { rand: self, count }
    }

    /// The flattened parameters.
    pub fn params(self) -> (r: RandomParams)
        ensures
            r == self@,
    {
        let mut p = self.rand.params();
        p.collection = Some(self.collection);
        p
    }

    /// The GET request for one random photo from the collections.
    pub fn get(self, auth: &str) -> (r: Request)
        ensures
            r.method == Method::Get,
            r.uri@ == random_uri() + encoded_query(self@.query_fields_spec()),
            values_escaped(self@.query_fields_spec()),
            pairs_view(r.headers@) == request_headers(auth@),
    {
        let p = self.params();
        get_request(&p, auth, random_uri_string().as_str())
    }
}

impl RandomCount {
    /// The flattened parameters.
    pub fn params(self) -> (r: RandomParams)
        ensures
            r == self@,
            r.count is Some && r.count->0 != 0,
    {
        proof {
            use_type_invariant(&self);
        }
        let mut p = self.rand.params();
        p.count = Some(self.count);
        p
    }

    /// The GET request for a list of random photos.
    pub fn get(self, auth: &str) -> (r: Request)
        ensures
            r.method == Method::Get,
            r.uri@ == random_uri() + encoded_query(self@.query_fields_spec()),
            values_escaped(self@.query_fields_spec()),
            pairs_view(r.headers@) == request_headers(auth@),
            self@.count is Some && self@.count->0 != 0,
    {
        proof {
            use_type_invariant(&self);
        }
        let p = self.params();
        get_request(&p, auth, random_uri_string().as_str())
    }
}

impl RandomQueryCount {
    /// The flattened parameters.
    pub fn params(self) -> (r: RandomParams)
        ensures
            r == self@,
            r.count is Some && r.count->0 != 0,
    {
        proof {
            use_type_invariant(&self);
        }
        let mut p = self.rand.params();
        p.count = Some(self.count);
        p
    }

    /// The GET request for a list of random photos that match the search text.
    pub fn get(self, auth: &str) -> (r: Request)
        ensures
            r.method == Method::Get,
            r.uri@ == random_uri() + encoded_query(self@.query_fields_spec()),
            values_escaped(self@.query_fields_spec()),
            pairs_view(r.headers@) == request_headers(auth@),
            self@.count is Some && self@.count->0 != 0,
    {
        proof {
            use_type_invariant(&self);
        }
        let p = self.params();
        get_request(&p, auth, random_uri_string().as_str())
    }
}

impl RandomCollectionCount {
    /// The flattened parameters.
    pub fn params(self) -> (r: RandomParams)
        ensures
            r == self@,
            r.count is Some && r.count->0 != 0,
    {
        proof {
            use_type_invariant(&self);
        }
        let mut p = self.rand.params();
        p.count = Some(self.count);
        p
    }

    /// The GET request for a list of random photos from the collections.
    pub fn get(self, auth: &str) -> (r: Request)
        ensures
            r.method == Method::Get,
            r.uri@ == random_uri() + encoded_query(self@.query_fields_spec()),
            values_escaped(self@.query_fields_spec()),
            pairs_view(r.headers@) == request_headers(auth@),
            self@.count is Some && self@.count->0 != 0,
    {
        proof {
            use_type_invariant(&self);
        }
        let p = self.params();
        get_request(&p, auth, random_uri_string().as_str())
    }
}


/// A request with no parameter set has an empty query string.
pub proof fn lemma_unset_params_encode_empty(p: RandomParams)
    requires
        p == RandomParams::none(),
    ensures
        p.query_fields_spec().len() == 0,
        encoded_query(p.query_fields_spec()) == Seq::<char>::empty(),
{
    assert(p.query_fields_spec() =~= Seq::<(Seq<char>, Seq<char>)>::empty());
}

/// Fixing a search text and then a count sends the base filters, then the
/// search text, then the count, and no collection.
pub proof fn lemma_query_then_count(base: Random, q: String, n: usize)
    requires
        n != 0,
    ensures
        ({
            let staged = base@.narrowed(None, Some(q), None).narrowed(None, Some(q), Some(n));
            &&& staged.query_fields_spec() == base@.query_fields_spec() + seq![
                ("query"@, q@),
                ("count"@, decimal_text(n as nat)),
            ]
            &&& staged.collection is None
        }),
{
    let staged = base@.narrowed(None, Some(q), None).narrowed(None, Some(q), Some(n));
    assert(staged.query_fields_spec() =~= base@.query_fields_spec() + seq![
        ("query"@, q@),
        ("count"@, decimal_text(n as nat)),
    ]);
}

/// No stage restricts the photos both by a search text and by collections:
/// the base stage and the counted stage restrict by neither, the search-text
/// stages by no collection and the collection stages by no search text.
pub proof fn lemma_one_restriction(
    base: Random,
    by_query: RandomQuery,
    by_collection: RandomCollection,
    counted: RandomCount,
    by_query_counted: RandomQueryCount,
    by_collection_counted: RandomCollectionCount,
)
    ensures
        base@.query is None && base@.collection is None,
        counted@.query is None && counted@.collection is None,
        by_query@.query is Some && by_query@.collection is None,
        by_query_counted@.query is Some && by_query_counted@.collection is None,
        by_collection@.collection is Some && by_collection@.query is None,
        by_collection_counted@.collection is Some && by_collection_counted@.query is None,
{
}

} // verus!
