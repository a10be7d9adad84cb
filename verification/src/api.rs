//! The requests that the API takes.

use crate::text::{fields_view, find, lookup, Field, Named};
use vstd::prelude::*;
use vstd::string::*;

verus! {

/// The address that every request goes to.
pub const URL_ENDPOINT: &'static str = "https://www.alphavantage.co/query";

/// The parameter that names the queried function.
pub const FUNCTION: &'static str = "function";

/// The parameter that holds the API key.
pub const API_KEY: &'static str = "apikey";

/// A request: the address it goes to, and the parameters of its query, in
/// the order in which they are sent. Names and values are held as given:
/// encoding them for a URL is left to the transport.
#[derive(Clone, Debug, PartialEq, Eq)]
pub struct APIRequest {
    pub endpoint: String,
    pub query: Vec<Field>,
}

pub struct APIRequestView {
    pub endpoint: Seq<char>,
    pub query: Seq<(Seq<char>, Seq<char>)>,
}

impl View for APIRequest {
    type V = APIRequestView;

    open spec fn view(&self) -> APIRequestView {
        APIRequestView { endpoint: self.endpoint@, query: fields_view(self.query@) }
    }
}

impl APIRequestView {
    /// The value of the first parameter called `name`.
    pub open spec fn get(self, name: Seq<char>) -> Option<Seq<char>> {
        lookup(self.query, name)
    }
}

impl APIRequest {
    /// The value of the first parameter called `name`.
    pub fn get(&self, name: &str) -> (value: Option<&String>)
        ensures
            match value {
                Some(text) => self@.get(name@) == Some(text@),
                None => self@.get(name@) is None,
            },
    {
        find(&self.query, name)
    }
}

/// The request for `function` with `params`, made with the API key `key`:
/// the function comes first, the key second, then `params` in their order.
pub open spec fn request_of(
    key: Seq<char>,
    function: Seq<char>,
    params: Seq<(Seq<char>, Seq<char>)>,
) -> APIRequestView {
    APIRequestView {
        endpoint: URL_ENDPOINT@,
        query: seq![(FUNCTION@, function), (API_KEY@, key)] + params,
    }
}

/// Makes requests that carry one API key.
#[derive(Clone, Debug, PartialEq, Eq)]
pub struct APIRequestBuilder {
    key: String,
}

impl View for APIRequestBuilder {
    type V = Seq<char>;

    /// The API key.
    closed spec fn view(&self) -> Seq<char> {
        self.key@
    }
}

impl APIRequestBuilder {
    pub fn new(key: &str) -> (builder: APIRequestBuilder)
        ensures
            builder@ == key@,
    {
        APIRequestBuilder { key: key.to_owned() }
    }

    /// Makes the request for `function` with `params`.
    pub fn create(&self, function: &str, params: Vec<Field>) -> (request: APIRequest)
        ensures
            request@ == request_of(self@, function@, fields_view(params@)),
    {
        let mut params = params;
        let ghost given = fields_view(params@);
        let mut query: Vec<Field> = Vec::new();
        query.push(Named { name: FUNCTION.to_owned(), value: function.to_owned() });
        query.push(Named { name: API_KEY.to_owned(), value: self.key.clone() });
        query.append(&mut params);
        assert(fields_view(query@) =~= seq![(FUNCTION@, function@), (API_KEY@, self@)] + given);
        APIRequest { endpoint: URL_ENDPOINT.to_owned(), query }
    }
}

} // verus!
