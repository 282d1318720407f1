use super::{order_text, Order};
use crate::endpoint::query::{
    decimal_opt, encode, encoded_query, is_plain_key, opt_decimal, opt_field, pairs_view,
    push_field, values_escaped,
};
use crate::endpoint::{get as get_request, request_headers, Method, Request, ToQuery};
use crate::API_URL;
use vstd::prelude::*;

verus! {

/// Path of the photo-list endpoint under the API root.
pub const LIST_PATH: &'static str = "photos";

/// The parameters of a photo-list request, in the order in which they are
/// sent.
#[derive(Debug, Clone, Copy, PartialEq, Eq, Structural)]
pub struct ListParams {
    /// The page asked for; pages start at 1.
    pub page: Option<usize>,
    /// The number of photos per page.
    pub per_page: Option<usize>,
    /// The order of the photos.
    pub order_by: Option<Order>,
}

/// Request builder for a list of photos.
#[derive(Debug, Clone, Copy)]
pub struct List {
    page: Option<usize>,
    per_page: Option<usize>,
    order_by: Option<Order>,
}

impl List {
    /// Pages start at 1, and a page holds at least one photo.
    #[verifier::type_invariant]
    spec fn counts_are_positive(&self) -> bool {
        self.page != Some(0usize) && self.per_page != Some(0usize)
    }
}

impl View for List {
    type V = ListParams;

    closed spec fn view(&self) -> ListParams {
        ListParams { page: self.page, per_page: self.per_page, order_by: self.order_by }
    }
}

/// The text of an optional ordering.
pub open spec fn opt_order(o: Option<Order>) -> Option<Seq<char>> {
    match o {
        Some(x) => Some(order_text(x)),
        None => None,
    }
}

/// The absolute URI of the photo-list endpoint.
pub open spec fn list_uri() -> Seq<char> {
    API_URL@ + LIST_PATH@
}

impl Default for List {
    fn default() -> (r: List)
        ensures
            r@ == List::none(),
    {
        List { page: None, per_page: None, order_by: None }
    }
}

impl List {
    /// A builder with no parameter set.
    pub open spec fn none() -> ListParams {
        ListParams { page: None, per_page: None, order_by: None }
    }

    /// Specifies which page to get. Pages start at 1.
    pub fn page(self, page: usize) -> (r: List)
        requires
            page != 0,
        ensures
            r@ == (ListParams { page: Some(page), ..self@ }),
    {
        proof {
            use_type_invariant(&self);
        }
        let mut s = self;
        s.page = Some(page);
        s
    }

    /// Specifies how many photos a page holds.
    pub fn per_page(self, per_page: usize) -> (r: List)
        requires
            per_page != 0,
        ensures
            r@ == (ListParams { per_page: Some(per_page), ..self@ }),
    {
        proof {
            use_type_invariant(&self);
        }
        let mut s = self;
        s.per_page = Some(per_page);
        s
    }

    /// Specifies how to order the photos.
    pub fn order_by(self, order_by: Order) -> (r: List)
        ensures
            r@ == (ListParams { order_by: Some(order_by), ..self@ }),
    {
        proof {
            use_type_invariant(&self);
        }
        let mut s = self;
        s.order_by = Some(order_by);
        s
    }

    /// The GET request for the list of photos.
    pub fn get(self, auth: &str) -> (r: Request)
        ensures
            r.method == Method::Get,
            r.uri@ == list_uri() + encoded_query(self.query_fields_spec()),
            values_escaped(self.query_fields_spec()),
            pairs_view(r.headers@) == request_headers(auth@),
            self@.page != Some(0usize) && self@.per_page != Some(0usize),
    {
        proof {
            use_type_invariant(&self);
        }
        let mut uri = String::from_str(API_URL);
        uri.append(LIST_PATH);
        get_request(&self, auth, uri.as_str())
    }
}

impl ToQuery for List {
    open spec fn query_fields_spec(&self) -> Seq<(Seq<char>, Seq<char>)> {
        opt_field("page"@, opt_decimal(self@.page)) + opt_field(
            "per_page"@,
            opt_decimal(self@.per_page),
        ) + opt_field("order_by"@, opt_order(self@.order_by))
    }

    fn query_fields(&self) -> (r: Vec<(String, String)>) {
        let mut v: Vec<(String, String)> = Vec::new();
        proof {
            reveal_strlit("page");
            assert(is_plain_key("page"@));
            reveal_strlit("per_page");
            assert(is_plain_key("per_page"@));
            reveal_strlit("order_by");
            assert(is_plain_key("order_by"@));
        }
        push_field(&mut v, "page", decimal_opt(self.page));
        proof {
            assert(pairs_view(v@) =~= opt_field("page"@, opt_decimal(self@.page)));
        }
        push_field(&mut v, "per_page", decimal_opt(self.per_page));
        let o = match self.order_by {
            Some(x) => Some(x.name()),
            None => None,
        };
        push_field(&mut v, "order_by", o);
        v
    }

    fn to_query(&self) -> (r: String) {
        encode(&self.query_fields())
    }
}


/// A list request with no parameter set has an empty query string.
pub proof fn lemma_unset_list_encode_empty(l: List)
    requires
        l@ == List::none(),
    ensures
        l.query_fields_spec().len() == 0,
        encoded_query(l.query_fields_spec()) == Seq::<char>::empty(),
{
    assert(l.query_fields_spec() =~= Seq::<(Seq<char>, Seq<char>)>::empty());
}

} // verus!
