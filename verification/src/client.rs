//! The user directory's HTTP interface, up to the point where a request is
//! sent: who asks, which address, which body.

use vstd::prelude::*;
use vstd::string::*;
use crate::text::{decimal, decimal_string};

verus! {

/// What the directory answered.
#[derive(Debug, Clone)]
pub struct HttpResponse<T> {
    pub status: u16,
    pub body: T,
}

/// Which part of a listing is asked for.
#[derive(Debug, Clone)]
pub struct LeashListOptions {
    pub offset: u32,
    pub limit: u32,
    pub include_deleted: bool,
}

/// One page of a listing, with the size of the whole listing.
#[derive(Debug, Clone)]
pub struct LeashListResult<T> {
    pub total: u32,
    pub data: Vec<T>,
}

/// How the client identifies itself.
#[derive(Debug, Clone, PartialEq, Eq)]
pub enum LeashAuthenticator {
    Token(String),
    ApiKey(String),
}

/// The verb of a request.
#[derive(Debug, Clone, Copy, PartialEq, Eq)]
pub enum Method {
    Get,
    Post,
    Put,
    Delete,
    Patch,
}

/// A request, ready to be sent: the `Authorization` header is always set, and
/// a request with a body carries `content-type: application/json`.
#[derive(Debug, Clone)]
pub struct HttpRequest {
    pub method: Method,
    pub url: String,
    pub authorization: String,
    pub json_body: Option<String>,
}

/// Query parameters in the order in which they are written into the address.
pub type Params = Vec<(String, String)>;

/// The parameters as text.
pub open spec fn pairs_view(args: Seq<(String, String)>) -> Seq<(Seq<char>, Seq<char>)> {
    args.map_values(|p: (String, String)| (p.0@, p.1@))
}

/// What `url::Url::parse_with_params` makes of an address and parameters: the
/// serialised URL, or `None` where the address is no absolute URL.
pub uninterp spec fn url_with_params(
    input: Seq<char>,
    params: Seq<(Seq<char>, Seq<char>)>,
) -> Option<Seq<char>>;

/// The most bytes that an address and its parameters may have together.
/// The `url` crate keeps positions in a URL as 32-bit numbers and fails
/// beyond them; escaping and the treatment of host names can make a URL
/// longer than what it is made from, and this limit leaves them a factor of
/// 255.
pub const MAX_URL_BYTES: usize = 0x0100_0000;

/// The number of bytes of a text in UTF-8, as a string's `len` gives it.
pub open spec fn text_bytes(text: Seq<char>) -> nat {
    (vstd::utf8::encode_utf8(text).len() as usize) as nat
}

/// The number of bytes that parameters take: those of each name and each
/// value, and two more for each pair.
pub open spec fn params_bytes(args: Seq<(Seq<char>, Seq<char>)>) -> nat
    decreases args.len(),
{
    if args.len() == 0 {
        0
    } else {
        params_bytes(args.drop_last()) + text_bytes(args.last().0) + text_bytes(args.last().1) + 2
    }
}

/// The address and the parameters are short enough to be made into a URL.
pub open spec fn spec_url_fits(input: Seq<char>, args: Seq<(Seq<char>, Seq<char>)>) -> bool {
    text_bytes(input) + params_bytes(args) <= MAX_URL_BYTES
}

proof fn lemma_params_bytes_grow(args: Seq<(Seq<char>, Seq<char>)>, i: int)
    requires
        0 <= i <= args.len(),
    ensures
        params_bytes(args.take(i)) <= params_bytes(args),
    decreases args.len() - i,
{
    if i < args.len() {
        lemma_params_bytes_grow(args, i + 1);
        assert(args.take(i + 1).drop_last() =~= args.take(i));
    } else {
        assert(args.take(i) =~= args);
    }
}

/// Tests whether the address and the parameters are short enough to be made
/// into a URL.
#[verifier::when_used_as_spec(spec_url_fits_of)]
pub fn url_fits(input: &str, params: &Params) -> (ok: bool)
    ensures
        ok == spec_url_fits(input@, pairs_view(params@)),
{
    if input.len() > MAX_URL_BYTES {
        return false;
    }
    let mut total: usize = input.len();
    let mut i: usize = 0;
    assert(pairs_view(params@).take(0) =~= Seq::empty());
    while i < params.len()
        invariant
            i <= params.len(),
            total <= MAX_URL_BYTES,
            total == text_bytes(input@) + params_bytes(pairs_view(params@).take(i as int)),
        decreases params.len() - i,
    {
        let name = params[i].0.as_str().len();
        let value = params[i].1.as_str().len();
        proof {
            let all = pairs_view(params@);
            assert(all.take(i as int + 1).drop_last() =~= all.take(i as int));
            assert(all.take(i as int + 1).last() == (params@[i as int].0@, params@[i as int].1@));
            lemma_params_bytes_grow(all, i as int + 1);
        }
        if name > MAX_URL_BYTES - total {
            return false;
        }
        let with_name = total + name;
        if value > MAX_URL_BYTES - with_name {
            return false;
        }
        let with_value = with_name + value;
        if 2 > MAX_URL_BYTES - with_value {
            return false;
        }
        total = with_value + 2;
        i = i + 1;
    }
    assert(pairs_view(params@).take(i as int) =~= pairs_view(params@));
    true
}

/// What `url_fits` computes.
pub open spec fn spec_url_fits_of(input: &str, params: &Params) -> bool {
    spec_url_fits(input@, pairs_view(params@))
}

/// `url::Url::parse_with_params`, and `String::from` on the URL it gives:
/// parses `input` as an absolute URL, appends `params` to its query in their
/// order, and writes the result out. The `url` crate panics where a
/// position in the URL passes `u32::MAX`, which `requires` leaves out by
/// the bound on the bytes that go in. The outcome is `url_with_params` of
/// the two arguments; nothing else is claimed of it.
#[verifier::external_body]
fn parse_url_with_params(input: &str, params: &Params) -> (url: Option<String>)
    requires
        spec_url_fits(input@, pairs_view(params@)),
    ensures
        match url {
            Some(text) => url_with_params(input@, pairs_view(params@)) == Some(text@),
            None => url_with_params(input@, pairs_view(params@)) is None,
        },
{
    url::Url::parse_with_params(input, params).ok().map(String::from)
}

impl LeashAuthenticator {
    /// The value of the `Authorization` header.
    pub open spec fn header(self) -> Seq<char> {
        match self {
            LeashAuthenticator::Token(token) => "Bearer "@ + token@,
            LeashAuthenticator::ApiKey(api_key) => "API-Key "@ + api_key@,
        }
    }

    /// The value of the `Authorization` header: `Bearer ` and the token, or
    /// `API-Key ` and the key.
    pub fn get_authentication_header(&self) -> (h: String)
        ensures
            h@ == self.header(),
    {
        match self {
            LeashAuthenticator::Token(token) => {
                let mut h = String::from_str("Bearer ");
                h.append(token.as_str());
                h
            },
            LeashAuthenticator::ApiKey(api_key) => {
                let mut h = String::from_str("API-Key ");
                h.append(api_key.as_str());
                h
            },
        }
    }
}

/// Holds of the parameters that are not named `key`.
pub open spec fn other_key(key: Seq<char>) -> spec_fn((Seq<char>, Seq<char>)) -> bool {
    |p: (Seq<char>, Seq<char>)| p.0 != key
}

/// The parameters without those named `key`, and `(key, value)` behind them.
pub open spec fn with_param(
    args: Seq<(Seq<char>, Seq<char>)>,
    key: Seq<char>,
    value: Seq<char>,
) -> Seq<(Seq<char>, Seq<char>)> {
    args.filter(other_key(key)).push((key, value))
}

/// No name occurs twice among the parameters.
pub open spec fn distinct_keys(args: Seq<(Seq<char>, Seq<char>)>) -> bool {
    forall|i: int, j: int|
        0 <= i < j < args.len() ==> (#[trigger] args[i]).0 != (#[trigger] args[j]).0
}

/// The name `key` occurs once among the parameters, in the last pair.
pub open spec fn set_once(args: Seq<(Seq<char>, Seq<char>)>, key: Seq<char>) -> bool {
    &&& args.len() > 0
    &&& args.last().0 == key
    &&& forall|i: int| 0 <= i < args.len() - 1 ==> (#[trigger] args[i]).0 != key
}

proof fn lemma_filter_keeps_distinct(
    args: Seq<(Seq<char>, Seq<char>)>,
    pred: spec_fn((Seq<char>, Seq<char>)) -> bool,
)
    requires
        distinct_keys(args),
    ensures
        distinct_keys(args.filter(pred)),
    decreases args.len(),
{
    reveal(Seq::filter);
    if args.len() > 0 {
        let front = args.drop_last();
        assert(distinct_keys(front)) by {
            assert forall|i: int, j: int| 0 <= i < j < front.len() implies (#[trigger] front[i]).0
                != (#[trigger] front[j]).0 by {
                assert(front[i] == args[i] && front[j] == args[j]);
            }
        }
        lemma_filter_keeps_distinct(front, pred);
        let kept = front.filter(pred);
        if pred(args.last()) {
            let all = kept.push(args.last());
            assert forall|i: int, j: int| 0 <= i < j < all.len() implies (#[trigger] all[i]).0 != (
            #[trigger] all[j]).0 by {
                if j < kept.len() {
                    assert(all[i] == kept[i] && all[j] == kept[j]);
                } else {
                    assert(all[i] == kept[i]);
                    assert(kept.contains(kept[i]));
                    front.lemma_filter_contains_rev(pred, kept[i]);
                    let k = choose|k: int| 0 <= k < front.len() && front[k] == kept[i];
                    assert(args[k] == front[k]);
                    assert(args[k].0 != args[args.len() - 1].0);
                }
            }
        }
    }
}

/// Setting a parameter leaves its name in the last pair and nowhere else,
/// and where no name occurred twice before, none does afterwards.
pub proof fn law_set_param_keys(
    args: Seq<(Seq<char>, Seq<char>)>,
    key: Seq<char>,
    value: Seq<char>,
)
    ensures
        set_once(with_param(args, key, value), key),
        distinct_keys(args) ==> distinct_keys(with_param(args, key, value)),
{
    let others = args.filter(other_key(key));
    let all = with_param(args, key, value);
    assert forall|i: int| 0 <= i < others.len() implies (#[trigger] others[i]).0 != key by {
        args.lemma_filter_pred(other_key(key), i);
    }
    assert forall|i: int| 0 <= i < all.len() - 1 implies (#[trigger] all[i]).0 != key by {
        assert(all[i] == others[i]);
    }
    if distinct_keys(args) {
        lemma_filter_keeps_distinct(args, other_key(key));
        assert forall|i: int, j: int| 0 <= i < j < all.len() implies (#[trigger] all[i]).0 != (
        #[trigger] all[j]).0 by {
            assert(all[i] == others[i]);
            if j < others.len() {
                assert(all[j] == others[j]);
            }
        }
    }
}

proof fn lemma_filter_push<A>(s: Seq<A>, x: A, pred: spec_fn(A) -> bool)
    ensures
        s.push(x).filter(pred) == if pred(x) {
            s.filter(pred).push(x)
        } else {
            s.filter(pred)
        },
{
    reveal(Seq::filter);
    assert(s.push(x).drop_last() =~= s);
}

/// Sets the parameter `key` to `value`: earlier values of `key` are dropped,
/// the other parameters keep their order, and the new pair comes last. So
/// `key` occurs once afterwards, and where no name occurred twice before,
/// none does afterwards.
pub fn set_param(args: &Params, key: &str, value: String) -> (r: Params)
    ensures
        pairs_view(r@) == with_param(pairs_view(args@), key@, value@),
        set_once(pairs_view(r@), key@),
        distinct_keys(pairs_view(args@)) ==> distinct_keys(pairs_view(r@)),
{
    proof {
        law_set_param_keys(pairs_view(args@), key@, value@);
    }
    let key_owned = String::from_str(key);
    let mut r: Params = Vec::new();
    let mut i: usize = 0;
    proof {
        reveal(Seq::filter);
        assert(pairs_view(args@.take(0)) =~= Seq::empty());
        assert(pairs_view(r@) =~= Seq::empty());
    }
    while i < args.len()
        invariant
            i <= args.len(),
            key_owned@ == key@,
            pairs_view(r@) == pairs_view(args@.take(i as int)).filter(other_key(key@)),
        decreases args.len() - i,
    {
        let ghost before = r@;
        let ghost shorter = pairs_view(args@.take(i as int));
        let ghost longer = pairs_view(args@.take(i as int + 1));
        let ghost pair = (args@[i as int].0@, args@[i as int].1@);
        if !(args[i].0 == key_owned) {
            r.push((args[i].0.clone(), args[i].1.clone()));
            assert(pairs_view(r@) =~= pairs_view(before).push(pair));
        }
        proof {
            assert(longer =~= shorter.push(pair));
            lemma_filter_push(shorter, pair, other_key(key@));
        }
        i = i + 1;
    }
    assert(args@.take(i as int) =~= args@);
    let ghost before = r@;
    r.push((key_owned, value));
    assert(pairs_view(r@) =~= pairs_view(before).push((key@, value@)));
    r
}

/// The number of entries asked for with each page of a full listing.
pub const PAGE_SIZE: u32 = 100;

/// Where the page after the one at `offset` starts, or `None` where the page
/// at `offset` was the last one: the listing holds `total` entries.
pub open spec fn spec_next_page(offset: u32, limit: u32, total: u32) -> Option<u32> {
    if total <= offset + limit {
        None
    } else {
        Some((offset + limit) as u32)
    }
}

/// Decides, after the page at `offset` has come in, whether a full listing
/// goes on, and where. A listing with `limit > 0` makes progress, and never
/// asks beyond `total`.
pub fn next_page(offset: u32, limit: u32, total: u32) -> (next: Option<u32>)
    ensures
        next == spec_next_page(offset, limit, total),
        next matches Some(o) ==> o == offset + limit && o < total,
{
    match offset.checked_add(limit) {
        Some(o) => if total <= o {
            None
        } else {
            Some(o)
        },
        None => None,
    }
}

/// A client of one directory.
#[derive(Debug, Clone)]
pub struct LeashClient {
    pub authenticator: LeashAuthenticator,
    pub base_url: String,
}

impl LeashClient {
    pub fn new(authenticator: LeashAuthenticator, base_url: String) -> (client: Self)
        ensures
            client.authenticator == authenticator,
            client.base_url == base_url,
    {
        Self { authenticator, base_url }
    }

    pub fn get_base_url(&self) -> (url: &str)
        ensures
            url@ == self.base_url@,
    {
        self.base_url.as_str()
    }

    /// The address of `path` below the base address, before it is parsed.
    pub open spec fn address(self, path: Seq<char>) -> Seq<char> {
        self.base_url@ + "/"@ + path
    }

    /// The URL that this client asks at for `path` with the parameters
    /// `args`: what the `url` crate makes of the address and the parameters.
    /// There is none where the two are longer than `MAX_URL_BYTES` together,
    /// nor where the address is no absolute URL.
    pub open spec fn request_url(
        self,
        path: Seq<char>,
        args: Seq<(Seq<char>, Seq<char>)>,
    ) -> Option<Seq<char>> {
        if spec_url_fits(self.address(path), args) {
            url_with_params(self.address(path), args)
        } else {
            None
        }
    }

    /// `request` is the request that this client sends for the given verb,
    /// path, parameters and body.
    pub open spec fn is_request(
        self,
        request: HttpRequest,
        method: Method,
        path: Seq<char>,
        args: Seq<(Seq<char>, Seq<char>)>,
        body: Option<Seq<char>>,
    ) -> bool {
        &&& request.method == method
        &&& self.request_url(path, args) == Some(request.url@)
        &&& request.authorization@ == self.authenticator.header()
        &&& match (request.json_body, body) {
            (Some(have), Some(want)) => have@ == want,
            (None, None) => true,
            _ => false,
        }
    }

    /// The parameters that are sent: those given, or none.
    pub open spec fn given(args: Option<Params>) -> Seq<(Seq<char>, Seq<char>)> {
        match args {
            Some(a) => pairs_view(a@),
            None => Seq::empty(),
        }
    }

    fn request(&self, method: Method, path: &str, args: Option<Params>, body: Option<&str>) -> (r:
        Option<HttpRequest>)
        ensures
            match r {
                Some(request) => self.is_request(
                    request,
                    method,
                    path@,
                    Self::given(args),
                    match body {
                        Some(b) => Some(b@),
                        None => None,
                    },
                ),
                None => self.request_url(path@, Self::given(args)) is None,
            },
    {
        let mut address = self.base_url.clone();
        address.append("/");
        address.append(path);
        let params: Params = match args {
            Some(a) => a,
            None => {
                let empty: Params = Vec::new();
                assert(pairs_view(empty@) =~= Seq::empty());
                empty
            },
        };
        if !url_fits(address.as_str(), &params) {
            return None;
        }
        match parse_url_with_params(address.as_str(), &params) {
            Some(url) => Some(
                HttpRequest {
                    method,
                    url,
                    authorization: self.authenticator.get_authentication_header(),
                    json_body: match body {
                        Some(b) => Some(String::from_str(b)),
                        None => None,
                    },
                },
            ),
            None => None,
        }
    }

    /// The request that reads `path`. `None` where the base address and
    /// `path` do not make an absolute URL, or where they and the parameters
    /// are longer than `MAX_URL_BYTES` together; the same holds of the other
    /// verbs.
    pub fn get(&self, path: &str, args: Option<Params>) -> (r: Option<HttpRequest>)
        ensures
            match r {
                Some(request) => self.is_request(
                    request,
                    Method::Get,
                    path@,
                    Self::given(args),
                    None,
                ),
                None => self.request_url(path@, Self::given(args)) is None,
            },
    {
        self.request(Method::Get, path, args, None)
    }

    /// The request that posts the JSON text `body` to `path`.
    pub fn post(&self, path: &str, args: Option<Params>, body: &str) -> (r: Option<HttpRequest>)
        ensures
            match r {
                Some(request) => self.is_request(
                    request,
                    Method::Post,
                    path@,
                    Self::given(args),
                    Some(body@),
                ),
                None => self.request_url(path@, Self::given(args)) is None,
            },
    {
        self.request(Method::Post, path, args, Some(body))
    }

    /// The request that puts the JSON text `body` at `path`.
    pub fn put(&self, path: &str, args: Option<Params>, body: &str) -> (r: Option<HttpRequest>)
        ensures
            match r {
                Some(request) => self.is_request(
                    request,
                    Method::Put,
                    path@,
                    Self::given(args),
                    Some(body@),
                ),
                None => self.request_url(path@, Self::given(args)) is None,
            },
    {
        self.request(Method::Put, path, args, Some(body))
    }

    /// The request that deletes `path`.
    pub fn delete(&self, path: &str, args: Option<Params>) -> (r: Option<HttpRequest>)
        ensures
            match r {
                Some(request) => self.is_request(
                    request,
                    Method::Delete,
                    path@,
                    Self::given(args),
                    None,
                ),
                None => self.request_url(path@, Self::given(args)) is None,
            },
    {
        self.request(Method::Delete, path, args, None)
    }

    /// The request that patches `path` with the JSON text `body`.
    pub fn patch(&self, path: &str, args: Option<Params>, body: &str) -> (r: Option<HttpRequest>)
        ensures
            match r {
                Some(request) => self.is_request(
                    request,
                    Method::Patch,
                    path@,
                    Self::given(args),
                    Some(body@),
                ),
                None => self.request_url(path@, Self::given(args)) is None,
            },
    {
        self.request(Method::Patch, path, args, Some(body))
    }

    /// The parameters of one page of a listing: those given, with `limit` and
    /// `offset` set to the page's.
    pub open spec fn page_params(args: Option<Params>, limit: u32, offset: u32) -> Seq<
        (Seq<char>, Seq<char>),
    > {
        with_param(
            with_param(Self::given(args), "limit"@, decimal(limit as nat)),
            "offset"@,
            decimal(offset as nat),
        )
    }

    /// The request that reads `limit` entries of the listing at `path`, from
    /// entry `offset` on.
    pub fn list(&self, path: &str, limit: u32, offset: u32, args: Option<Params>) -> (r: Option<
        HttpRequest,
    >)
        ensures
            match r {
                Some(request) => self.is_request(
                    request,
                    Method::Get,
                    path@,
                    Self::page_params(args, limit, offset),
                    None,
                ),
                None => self.request_url(path@, Self::page_params(args, limit, offset)) is None,
            },
    {
        let given: Params = match args {
            Some(a) => a,
            None => {
                let empty: Params = Vec::new();
                assert(pairs_view(empty@) =~= Seq::empty());
                empty
            },
        };
        let limited = set_param(&given, "limit", decimal_string(limit));
        let paged = set_param(&limited, "offset", decimal_string(offset));
        self.get(path, Some(paged))
    }

    /// The request for the page of a full listing of `path` that starts at
    /// `offset`. A full listing asks for the page at 0 and then, as long as
    /// `next_page` gives one, for the page at the offset it gives.
    pub fn list_all(&self, path: &str, offset: u32) -> (r: Option<HttpRequest>)
        ensures
            match r {
                Some(request) => self.is_request(
                    request,
                    Method::Get,
                    path@,
                    Self::page_params(None, PAGE_SIZE, offset),
                    None,
                ),
                None => self.request_url(
                    path@,
                    Self::page_params(None, PAGE_SIZE, offset),
                ) is None,
            },
    {
        self.list(path, PAGE_SIZE, offset, None)
    }
}

/// A full listing comes to an end: each page starts further on than the one
/// before it, and none starts at or beyond the listing's size.
pub proof fn law_listing_advances(offset: u32, total: u32)
    ensures
        spec_next_page(offset, PAGE_SIZE, total) matches Some(next) ==> offset < next < total,
        total <= offset ==> spec_next_page(offset, PAGE_SIZE, total) is None,
{
}

} // verus!
