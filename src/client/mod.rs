//! Request descriptors and the exchange client that turns operations into
//! HTTP requests.
use vstd::prelude::*;

use reqwest::header::HeaderMap;

use crate::apis::{ToUrl, API};
use crate::error::ExbotError;

pub mod binance;
pub mod headers;

use self::headers::{
    clone_headers, extend_headers, header_entries, header_names_len, insert_header, new_header_map,
    valid_header_name, valid_header_value, HEADER_ROOM,
};

verus! {

/// Produces the authentication material of a signed request.
pub trait RequestSigned {
    /// Whether signing may succeed; an exchange without a signature scheme
    /// says no.
    spec fn can_sign(&self) -> bool;

    fn signed(&self) -> (r: Result<RequestData, ExbotError>)
        ensures
            !self.can_sign() ==> r is Err,
    ;
}

/// What a request descriptor holds.
pub struct RequestDataView {
    pub headers: Map<Seq<char>, Seq<Seq<char>>>,
    pub query: Seq<(Seq<char>, Seq<char>)>,
}

/// The text of each query parameter.
pub open spec fn query_view(q: Seq<(&'static str, &'static str)>) -> Seq<(Seq<char>, Seq<char>)> {
    q.map_values(|p: (&'static str, &'static str)| (p.0@, p.1@))
}

/// Merging: headers of `other` win on a shared name, query parameters of
/// `other` follow those of `base`, duplicates kept.
pub open spec fn merge_view(base: RequestDataView, other: RequestDataView) -> RequestDataView {
    RequestDataView {
        headers: base.headers.union_prefer_right(other.headers),
        query: base.query + other.query,
    }
}

/// Headers and query parameters destined for one HTTP call.
#[derive(Debug)]
pub struct RequestData {
    headers: HeaderMap,
    query: Vec<(&'static str, &'static str)>,
}

impl View for RequestData {
    type V = RequestDataView;

    closed spec fn view(&self) -> RequestDataView {
        RequestDataView { headers: header_entries(self.headers), query: query_view(self.query@) }
    }
}

impl RequestData {
    /// Whether one more header name fits.
    pub open spec fn has_room(&self) -> bool {
        self@.headers.dom().len() < HEADER_ROOM
    }

    /// Sets a header, replacing what was held under its name.
    pub fn add_header(self, key: &'static str, val: &'static str) -> (r: Self)
        requires
            valid_header_name(key@),
            valid_header_value(val@),
            self.has_room(),
        ensures
            r@.headers == self@.headers.insert(key@, seq![val@]),
            r@.query == self@.query,
    {
        let RequestData { mut headers, query } = self;
        insert_header(&mut headers, key, val);
        RequestData { headers, query }
    }

    /// Appends a query parameter.
    pub fn add_query(self, value: (&'static str, &'static str)) -> (r: Self)
        ensures
            r@.headers == self@.headers,
            r@.query == self@.query.push((value.0@, value.1@)),
    {
        let RequestData { headers, mut query } = self;
        query.push(value);
        let r = RequestData { headers, query };
        proof {
            assert(query_view(r.query@) =~= query_view(self.query@).push((value.0@, value.1@)));
        }
        r
    }

    /// Whether `other` can be merged in without passing the header map's
    /// size limit.
    pub open spec fn can_merge(&self, other: &RequestData) -> bool {
        self@.headers.dom().len() + other@.headers.dom().len() < HEADER_ROOM
    }

    /// Merges `reqwest_data` in: its headers overwrite those of the same name,
    /// its query parameters are appended.
    pub fn merge(self, reqwest_data: RequestData) -> (r: Self)
        requires
            self.can_merge(&reqwest_data),
        ensures
            r@ == merge_view(self@, reqwest_data@),
    {
        let RequestData { mut headers, mut query } = self;
        let RequestData { headers: other_headers, query: mut other_query } = reqwest_data;
        extend_headers(&mut headers, other_headers);
        query.append(&mut other_query);
        proof {
            assert(query_view(query@) =~= query_view(self.query@) + query_view(
                reqwest_data.query@,
            ));
        }
        RequestData { headers, query }
    }

    /// The number of distinct header names.
    pub fn headers_len(&self) -> (r: usize)
        ensures
            r == self@.headers.dom().len(),
    {
        header_names_len(&self.headers)
    }

    /// The headers, for the transport.
    pub fn headers(&self) -> (r: &HeaderMap)
        ensures
            header_entries(*r) == self@.headers,
    {
        &self.headers
    }

    /// The query parameters, for the transport.
    pub fn query(&self) -> (r: &Vec<(&'static str, &'static str)>)
        ensures
            query_view(r@) == self@.query,
    {
        &self.query
    }
}

impl Clone for RequestData {
    fn clone(&self) -> (r: Self)
        ensures
            r@ == self@,
    {
        let mut query: Vec<(&'static str, &'static str)> = Vec::new();
        let mut i: usize = 0;
        while i < self.query.len()
            invariant
                i <= self.query@.len(),
                query@ == self.query@.subrange(0, i as int),
            decreases self.query@.len() - i,
        {
            query.push(self.query[i]);
            i = i + 1;
        }
        proof {
            assert(self.query@.subrange(0, self.query@.len() as int) =~= self.query@);
        }
        RequestData { headers: clone_headers(&self.headers), query }
    }
}

impl Default for RequestData {
    fn default() -> (r: Self)
        ensures
            r@.headers.dom() == Set::<Seq<char>>::empty(),
            r@.query == Seq::<(Seq<char>, Seq<char>)>::empty(),
    {
        let r = RequestData { headers: new_header_map(), query: Vec::new() };
        proof {
            assert(query_view(r.query@) =~= Seq::<(Seq<char>, Seq<char>)>::empty());
        }
        r
    }
}

/// Merging three descriptors in turn: on each header name the last
/// descriptor that holds it wins, every query parameter of the three is kept
/// in order with duplicates, and grouping the merges either way gives the
/// same descriptor.
pub proof fn lemma_merge_three(a: RequestDataView, b: RequestDataView, c: RequestDataView)
    ensures
        merge_view(merge_view(a, b), c) == merge_view(a, merge_view(b, c)),
        merge_view(merge_view(a, b), c).query == a.query + b.query + c.query,
        merge_view(merge_view(a, b), c).headers.dom() == a.headers.dom() + b.headers.dom()
            + c.headers.dom(),
        forall|k: Seq<char>|
            c.headers.contains_key(k) ==> #[trigger] merge_view(merge_view(a, b), c).headers[k]
                == c.headers[k],
        forall|k: Seq<char>|
            !c.headers.contains_key(k) && b.headers.contains_key(k) ==> #[trigger] merge_view(
                merge_view(a, b),
                c,
            ).headers[k] == b.headers[k],
        forall|k: Seq<char>|
            !c.headers.contains_key(k) && !b.headers.contains_key(k) && a.headers.contains_key(k)
                ==> #[trigger] merge_view(merge_view(a, b), c).headers[k] == a.headers[k],
{
    let left = merge_view(merge_view(a, b), c);
    let right = merge_view(a, merge_view(b, c));
    assert(left.headers =~= right.headers);
    assert(left.query =~= right.query);
    assert(left.headers.dom() =~= a.headers.dom() + b.headers.dom() + c.headers.dom());
}

/// Accepts an HTTP response status: only the success range 200 to 299
/// passes; any other status is its own error, apart from transport and
/// decoding failures.
pub fn check_status(status: u16) -> (r: Result<(), ExbotError>)
    ensures
        r is Ok <==> 200 <= status < 300,
        r matches Err(e) ==> e == ExbotError::HttpStatus(status),
{
    if 200 <= status && status < 300 {
        Ok(())
    } else {
        Err(ExbotError::HttpStatus(status))
    }
}

/// An HTTP method.
#[derive(Debug, Clone, Copy, PartialEq, Eq, Structural)]
pub enum Method {
    Get,
    Post,
    Put,
    Delete,
}

/// One outbound HTTP call, ready for the transport.
pub struct HttpRequest {
    pub method: Method,
    pub url: String,
    pub query: Vec<(&'static str, &'static str)>,
    pub headers: HeaderMap,
}

/// A client of one exchange: it resolves operations to URLs and builds the
/// requests that the transport sends, one request per call.
pub struct Client<C = binance::Client> where C: ToUrl + RequestSigned {
    ex_client: C,
}

impl<C> Client<C> where C: ToUrl + RequestSigned {
    /// The exchange that the client talks to.
    pub closed spec fn exchange(&self) -> C {
        self.ex_client
    }

    pub fn new(ex_client: C) -> (r: Self)
        ensures
            r.exchange() == ex_client,
    {
        Client { ex_client }
    }

    /// A request to the URL of `api` that carries the headers and query
    /// parameters of `request_data`.
    fn request(&self, method: Method, api: API, request_data: RequestData) -> (r: HttpRequest)
        ensures
            r.method == method,
            r.url@ == self.exchange().url_of(api),
            header_entries(r.headers) == request_data@.headers,
            query_view(r.query@) == request_data@.query,
    {
        let url = self.ex_client.to_url(api);
        let RequestData { headers, query } = request_data;
        HttpRequest { method, url, query, headers }
    }

    /// A GET of `api` with the headers and query parameters of `request_data`.
    pub fn get(&self, api: API, request_data: RequestData) -> (r: HttpRequest)
        ensures
            r.method == Method::Get,
            r.url@ == self.exchange().url_of(api),
            header_entries(r.headers) == request_data@.headers,
            query_view(r.query@) == request_data@.query,
    {
        self.request(Method::Get, api, request_data)
    }

    /// A GET of `api` whose descriptor is `request_data` with `signature`
    /// merged in: the signature's headers overwrite those of the same name
    /// and its query parameters follow the caller's. It fails where the two
    /// hold too many header names for one header map.
    pub fn get_with_signature(&self, api: API, signature: RequestData, request_data: RequestData) -> (r:
        Result<HttpRequest, ExbotError>)
        ensures
            r is Ok <==> request_data.can_merge(&signature),
            r matches Ok(req) ==> {
                &&& req.method == Method::Get
                &&& req.url@ == self.exchange().url_of(api)
                &&& header_entries(req.headers) == merge_view(request_data@, signature@).headers
                &&& query_view(req.query@) == merge_view(request_data@, signature@).query
            },
            r matches Err(e) ==> e is Error,
    {
        let n = request_data.headers_len();
        let m = signature.headers_len();
        if n >= HEADER_ROOM || m >= HEADER_ROOM - n {
            return Err(ExbotError::Error("too many headers for one request".to_owned()));
        }
        let merged = request_data.merge(signature);
        Ok(self.request(Method::Get, api, merged))
    }

    /// A signed GET of `api`: the exchange signs, and what signing produced
    /// is merged over `request_data`. Where signing fails, its error is
    /// returned and no request is built.
    pub fn get_signed(&self, api: API, request_data: RequestData) -> (r: Result<
        HttpRequest,
        ExbotError,
    >)
        ensures
            !self.exchange().can_sign() ==> r is Err,
            r matches Ok(req) ==> {
                &&& req.method == Method::Get
                &&& req.url@ == self.exchange().url_of(api)
                &&& exists|s: RequestDataView|
                    {
                        &&& header_entries(req.headers) == #[trigger] merge_view(
                            request_data@,
                            s,
                        ).headers
                        &&& query_view(req.query@) == merge_view(request_data@, s).query
                    }
            },
    {
        match self.ex_client.signed() {
            Ok(signature) => {
                let ghost s = signature@;
                let ghost d = request_data@;
                let r = self.get_with_signature(api, signature, request_data);
                proof {
                    if r is Ok {
                        let req = r->Ok_0;
                        assert(header_entries(req.headers) == merge_view(d, s).headers);
                    }
                }
                r
            },
            Err(e) => Err(e),
        }
    }

    /// A POST of `api` with the headers and query parameters of
    /// `request_data`.
    pub fn post(&self, api: API, request_data: RequestData) -> (r: HttpRequest)
        ensures
            r.method == Method::Post,
            r.url@ == self.exchange().url_of(api),
            header_entries(r.headers) == request_data@.headers,
            query_view(r.query@) == request_data@.query,
    {
        self.request(Method::Post, api, request_data)
    }

    /// A PUT of `api` with the headers and query parameters of
    /// `request_data`.
    pub fn put(&self, api: API, request_data: RequestData) -> (r: HttpRequest)
        ensures
            r.method == Method::Put,
            r.url@ == self.exchange().url_of(api),
            header_entries(r.headers) == request_data@.headers,
            query_view(r.query@) == request_data@.query,
    {
        self.request(Method::Put, api, request_data)
    }

    /// A DELETE of `api` with the headers and query parameters of
    /// `request_data`.
    pub fn delete(&self, api: API, request_data: RequestData) -> (r: HttpRequest)
        ensures
            r.method == Method::Delete,
            r.url@ == self.exchange().url_of(api),
            header_entries(r.headers) == request_data@.headers,
            query_view(r.query@) == request_data@.query,
    {
        self.request(Method::Delete, api, request_data)
    }
}

impl<C> Default for Client<C> where C: ToUrl + RequestSigned + Default {
    fn default() -> (r: Self) {
        Client { ex_client: C::default() }
    }
}

} // verus!
