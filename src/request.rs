//! Request descriptors: the kind of a request, its URL, its headers and its
//! parameters, built from an account configuration.
use vstd::prelude::*;
use crate::account::AccountConfig;
use crate::error::KisError;
use crate::pairs::{
    get_pair, keys_unique, lemma_pairs_map_at, lemma_pairs_map_key, overlay, pairs_map, set_pair,
    str_pairs, string_pairs,
};

verus! {

/// The three header and body conventions of the upstream API.
#[derive(Debug, Clone, Copy, PartialEq, Eq, Structural)]
pub enum RequestType {
    /// Parameters go in the query string.
    GET,
    /// Parameters go in a JSON body.
    POST,
    /// A POST that asks for an access token: credentials go in the body.
    POSTTOKEN,
}

/// What a request descriptor stands for.
pub struct RequestModel {
    pub kind: RequestType,
    pub url: Seq<char>,
    pub headers: Map<Seq<char>, Seq<char>>,
    pub parameters: Map<Seq<char>, Seq<char>>,
}

/// An outbound request: header names are lower case, and within the
/// headers, as within the parameters, a key occurs once.
#[derive(Debug, Clone)]
pub struct KisRequest {
    pub req_type: RequestType,
    pub url: String,
    pub headers: Vec<(String, String)>,
    pub parameters: Vec<(String, String)>,
}

impl View for KisRequest {
    type V = RequestModel;

    open spec fn view(&self) -> RequestModel {
        RequestModel {
            kind: self.req_type,
            url: self.url@,
            headers: pairs_map(string_pairs(self.headers@)),
            parameters: pairs_map(string_pairs(self.parameters@)),
        }
    }
}

impl KisRequest {
    pub open spec fn wf(&self) -> bool {
        &&& keys_unique(string_pairs(self.headers@))
        &&& keys_unique(string_pairs(self.parameters@))
        &&& names_lower(pairs_map(string_pairs(self.headers@)))
    }
}

/// The headers that a request of `kind` starts with.
pub open spec fn seeded_headers(kind: RequestType, conf: AccountConfig) -> Map<Seq<char>, Seq<char>> {
    let base = Map::<Seq<char>, Seq<char>>::empty().insert("content-type"@, "application/json"@);
    match kind {
        RequestType::POSTTOKEN => base,
        _ => base.insert("appkey"@, conf.key@).insert("appsecret"@, conf.secret@),
    }
}

/// The parameters that a request of `kind` starts with.
pub open spec fn seeded_parameters(kind: RequestType, conf: AccountConfig) -> Map<Seq<char>, Seq<char>> {
    match kind {
        RequestType::POSTTOKEN => Map::<Seq<char>, Seq<char>>::empty()
            .insert("appkey"@, conf.key@)
            .insert("appsecret"@, conf.secret@)
            .insert("grant_type"@, "client_credentials"@),
        _ => Map::empty(),
    }
}

/// The value of the `authorization` header.
pub open spec fn bearer(token: Seq<char>) -> Seq<char> {
    "Bearer "@ + token
}

/// The seeded headers, with the bearer token on every kind but the token request.
pub open spec fn authorized_headers(kind: RequestType, conf: AccountConfig) -> Map<Seq<char>, Seq<char>> {
    match kind {
        RequestType::POSTTOKEN => seeded_headers(kind, conf),
        _ => seeded_headers(kind, conf).insert("authorization"@, bearer(conf.token@)),
    }
}

/// The ASCII lower case of a character; other characters stay as they are.
pub open spec fn lower_char(c: char) -> char {
    if 'A' <= c && c <= 'Z' {
        ((c as u32) + 32) as char
    } else {
        c
    }
}

/// The ASCII lower case of a text.
pub open spec fn lower(s: Seq<char>) -> Seq<char> {
    s.map_values(|c: char| lower_char(c))
}

/// Pairs whose names are put in lower case.
pub open spec fn lower_keys(s: Seq<(Seq<char>, Seq<char>)>) -> Seq<(Seq<char>, Seq<char>)> {
    s.map_values(|p: (Seq<char>, Seq<char>)| (lower(p.0), p.1))
}

/// Every header name is in lower case, so names differing in case only
/// never stand side by side.
pub open spec fn names_lower(m: Map<Seq<char>, Seq<char>>) -> bool {
    forall|k: Seq<char>| #[trigger] m.contains_key(k) ==> lower(k) == k
}

/// A character that HTTP allows in a header name.
pub open spec fn header_name_char(c: char) -> bool {
    ||| 'a' <= c && c <= 'z'
    ||| 'A' <= c && c <= 'Z'
    ||| '0' <= c && c <= '9'
    ||| c == '!' || c == '"' || c == '#' || c == '$' || c == '%' || c == '&' || c == '\''
    ||| c == '*' || c == '+' || c == '-' || c == '.' || c == '^' || c == '_' || c == '`'
    ||| c == '|' || c == '~'
}

/// A text that HTTP accepts as a header name: 1 to 65535 allowed characters.
pub open spec fn header_name_ok(s: Seq<char>) -> bool {
    &&& 1 <= s.len() <= 65535
    &&& forall|i: int| 0 <= i < s.len() ==> header_name_char(s[i])
}

/// A text that HTTP accepts as a header value: tabs, and no control
/// character below 32 nor DEL.
pub open spec fn header_text_ok(s: Seq<char>) -> bool {
    forall|i: int| 0 <= i < s.len() ==> s[i] == '\t' || (s[i] as u32 >= 32 && s[i] as u32 != 127)
}

/// Every header name and value is acceptable.
pub open spec fn headers_ok(m: Map<Seq<char>, Seq<char>>) -> bool {
    forall|k: Seq<char>| #[trigger] m.contains_key(k) ==> header_name_ok(k) && header_text_ok(m[k])
}

/// Whether a text parses as an absolute URL.
pub uninterp spec fn url_valid(s: Seq<char>) -> bool;

/// The request of `kind` to `path`, with `headers` (their names in lower
/// case) written over the authorized headers and `parameters` as its whole
/// parameter set.
pub open spec fn build_spec(
    conf: AccountConfig,
    kind: RequestType,
    path: Seq<char>,
    headers: Seq<(Seq<char>, Seq<char>)>,
    parameters: Map<Seq<char>, Seq<char>>,
) -> Result<RequestModel, KisError> {
    let url = conf.url@ + path;
    let h = overlay(authorized_headers(kind, conf), lower_keys(headers));
    if !url_valid(url) {
        Err(KisError::InvalidUrl)
    } else if !headers_ok(h) {
        Err(KisError::InvalidHeaderValue)
    } else {
        Ok(RequestModel { kind, url, headers: h, parameters })
    }
}

/// The request of `kind` to `path`, with `headers` and `parameters` written
/// over the seeded ones (the caller's value wins on a shared key).
pub open spec fn request_spec(
    conf: AccountConfig,
    kind: RequestType,
    path: Seq<char>,
    headers: Seq<(Seq<char>, Seq<char>)>,
    parameters: Seq<(Seq<char>, Seq<char>)>,
) -> Result<RequestModel, KisError> {
    build_spec(conf, kind, path, headers, overlay(seeded_parameters(kind, conf), parameters))
}

/// What a built request stands for, or its error.
pub open spec fn outcome(r: Result<KisRequest, KisError>) -> Result<RequestModel, KisError> {
    match r {
        Ok(q) => Ok(q@),
        Err(e) => Err(e),
    }
}

/// Relies on reqwest::header::HeaderValue::from_str, which refuses a text
/// exactly when one of its bytes is below 32 (tab excepted) or is 127; the
/// bytes of a character above 127 are all at least 128.
#[verifier::external_body]
fn header_value_accepted(s: &str) -> (r: bool)
    ensures
        r == header_text_ok(s@),
{
    reqwest::header::HeaderValue::from_str(s).is_ok()
}

/// Relies on reqwest::header::HeaderName::from_bytes, which accepts 1 to
/// 65535 bytes, each a letter, a digit or one of ``!"#$%&'*+-.^_`|~``.
#[verifier::external_body]
fn header_name_accepted(s: &str) -> (r: bool)
    ensures
        r == header_name_ok(s@),
{
    reqwest::header::HeaderName::from_bytes(s.as_bytes()).is_ok()
}

/// Relies on str::to_ascii_lowercase: ASCII letters `A` to `Z` become `a`
/// to `z`, every other character stays.
#[verifier::external_body]
fn ascii_lowercase(s: &str) -> (r: String)
    ensures
        r@ == lower(s@),
{
    s.to_ascii_lowercase()
}

/// Relies on url::Url::parse, whose verdict depends on the text alone.
#[verifier::external_body]
fn url_accepted(s: &str) -> (r: bool)
    ensures
        r == url_valid(s@),
{
    url::Url::parse(s).is_ok()
}

impl KisRequest {
    /// The request of `req_type` to the configured base URL, with the seeded
    /// headers and parameters of that kind.
    pub fn new(req_type: RequestType, conf: &AccountConfig) -> (r: Self)
        ensures
            r.wf(),
            r@ == (RequestModel {
                kind: req_type,
                url: conf.url@,
                headers: seeded_headers(req_type, *conf),
                parameters: seeded_parameters(req_type, *conf),
            }),
    {
        let mut headers: Vec<(String, String)> = Vec::new();
        let mut parameters: Vec<(String, String)> = Vec::new();
        proof {
            assert(string_pairs(headers@) =~= Seq::empty());
            assert(string_pairs(parameters@) =~= Seq::empty());
        }
        set_pair(&mut headers, "content-type", "application/json");
        match req_type {
            RequestType::POSTTOKEN => {
                set_pair(&mut parameters, "appkey", conf.get_apikey());
                set_pair(&mut parameters, "appsecret", conf.get_secret());
                set_pair(&mut parameters, "grant_type", "client_credentials");
            },
            _ => {
                set_pair(&mut headers, "appkey", conf.get_apikey());
                set_pair(&mut headers, "appsecret", conf.get_secret());
            },
        }
        let r = KisRequest { req_type, url: conf.get_url(), headers, parameters };
        assert(r@.headers =~= seeded_headers(req_type, *conf));
        proof {
            lemma_seeded_names_lower(req_type, *conf);
        }
        assert(r@.parameters =~= seeded_parameters(req_type, *conf));
        r
    }

    /// The value of header `name`, if the request carries it.
    pub fn header(&self, name: &str) -> (r: Option<String>)
        requires
            self.wf(),
        ensures
            match r {
                Some(v) => self@.headers.contains_key(name@) && v@ == self@.headers[name@],
                None => !self@.headers.contains_key(name@),
            },
    {
        get_pair(&self.headers, name)
    }

    /// The value of parameter `name`, if the request carries it.
    pub fn parameter(&self, name: &str) -> (r: Option<String>)
        requires
            self.wf(),
        ensures
            match r {
                Some(v) => self@.parameters.contains_key(name@) && v@ == self@.parameters[name@],
                None => !self@.parameters.contains_key(name@),
            },
    {
        get_pair(&self.parameters, name)
    }
}

/// Writes each pair of `extra` over `v`, in order.
fn set_all(v: &mut Vec<(String, String)>, extra: &[(&str, &str)])
    requires
        keys_unique(string_pairs(old(v)@)),
    ensures
        keys_unique(string_pairs(final(v)@)),
        pairs_map(string_pairs(final(v)@)) == overlay(pairs_map(string_pairs(old(v)@)), str_pairs(extra@)),
{
    let ghost m0 = pairs_map(string_pairs(v@));
    let mut i: usize = 0;
    while i < extra.len()
        invariant
            i <= extra@.len(),
            keys_unique(string_pairs(v@)),
            pairs_map(string_pairs(v@)) == overlay(m0, str_pairs(extra@).take(i as int)),
        decreases extra@.len() - i,
    {
        let (k, val) = extra[i];
        set_pair(v, k, val);
        proof {
            let t = str_pairs(extra@).take(i as int + 1);
            assert(t.drop_last() =~= str_pairs(extra@).take(i as int));
            assert(t.last() == (k@, val@));
        }
        i = i + 1;
    }
    assert(str_pairs(extra@).take(extra@.len() as int) =~= str_pairs(extra@));
}

/// Writes each pair of `extra` over the headers `v`, in order, with its name
/// in lower case.
fn set_headers(v: &mut Vec<(String, String)>, extra: &[(&str, &str)])
    requires
        keys_unique(string_pairs(old(v)@)),
        names_lower(pairs_map(string_pairs(old(v)@))),
    ensures
        keys_unique(string_pairs(final(v)@)),
        names_lower(pairs_map(string_pairs(final(v)@))),
        pairs_map(string_pairs(final(v)@)) == overlay(
            pairs_map(string_pairs(old(v)@)),
            lower_keys(str_pairs(extra@)),
        ),
{
    let ghost m0 = pairs_map(string_pairs(v@));
    let mut i: usize = 0;
    while i < extra.len()
        invariant
            i <= extra@.len(),
            keys_unique(string_pairs(v@)),
            names_lower(pairs_map(string_pairs(v@))),
            pairs_map(string_pairs(v@)) == overlay(m0, lower_keys(str_pairs(extra@)).take(i as int)),
        decreases extra@.len() - i,
    {
        let (k, val) = extra[i];
        let name = ascii_lowercase(k);
        let ghost before = pairs_map(string_pairs(v@));
        set_pair(v, name.as_str(), val);
        proof {
            let t = lower_keys(str_pairs(extra@)).take(i as int + 1);
            assert(t.drop_last() =~= lower_keys(str_pairs(extra@)).take(i as int));
            assert(t.last() == (lower(k@), val@));
            assert(lower(lower(k@)) =~= lower(k@));
            let after = pairs_map(string_pairs(v@));
            assert forall|x: Seq<char>| #[trigger] after.contains_key(x) implies lower(x) == x by {
                if x != lower(k@) {
                    assert(before.contains_key(x));
                }
            }
        }
        i = i + 1;
    }
    assert(lower_keys(str_pairs(extra@)).take(extra@.len() as int) =~= lower_keys(str_pairs(extra@)));
}

/// Whether every header name and value of `v` is acceptable to HTTP.
fn headers_accepted(v: &Vec<(String, String)>) -> (r: bool)
    requires
        keys_unique(string_pairs(v@)),
    ensures
        r == headers_ok(pairs_map(string_pairs(v@))),
{
    let ghost s = string_pairs(v@);
    let mut i: usize = 0;
    while i < v.len()
        invariant
            i <= v@.len(),
            s == string_pairs(v@),
            keys_unique(s),
            forall|j: int| 0 <= j < i ==> header_name_ok(#[trigger] s[j].0) && header_text_ok(s[j].1),
        decreases v@.len() - i,
    {
        if !header_name_accepted(v[i].0.as_str()) || !header_value_accepted(v[i].1.as_str()) {
            proof {
                lemma_pairs_map_at(s, i as int);
            }
            return false;
        }
        i = i + 1;
    }
    assert forall|k: Seq<char>| #[trigger] pairs_map(s).contains_key(k) implies header_name_ok(k)
        && header_text_ok(pairs_map(s)[k]) by {
        let j = lemma_pairs_map_key(s, k);
    }
    true
}

/// Builds the request of `kind` to `path` with `headers` over the
/// authorized headers and `parameters` as its whole parameter set.
pub fn build_request(
    conf: &AccountConfig,
    kind: RequestType,
    path: &str,
    headers: &[(&str, &str)],
    parameters: Vec<(String, String)>,
) -> (r: Result<KisRequest, KisError>)
    requires
        keys_unique(string_pairs(parameters@)),
    ensures
        outcome(r) == build_spec(*conf, kind, path@, str_pairs(headers@), pairs_map(string_pairs(parameters@))),
        r is Ok ==> r->Ok_0.wf(),
{
    let mut req = KisRequest::new(kind, conf);
    match kind {
        RequestType::POSTTOKEN => {},
        _ => {
            let auth = "Bearer ".to_owned().concat(conf.get_access_token());
            set_pair(&mut req.headers, "authorization", auth.as_str());
            proof {
                reveal_strlit("Bearer ");
                reveal_strlit("authorization");
                assert(lower("authorization"@) =~= "authorization"@);
            }
        },
    }
    assert(pairs_map(string_pairs(req.headers@)) =~= authorized_headers(kind, *conf));
    set_headers(&mut req.headers, headers);
    req.url.append(path);
    req.parameters = parameters;
    if !url_accepted(req.url.as_str()) {
        return Err(KisError::InvalidUrl);
    }
    if !headers_accepted(&req.headers) {
        return Err(KisError::InvalidHeaderValue);
    }
    Ok(req)
}

/// Builds the request of `kind` to `path`, with `headers` and `parameters`
/// written over the seeded ones.
pub fn make_request(
    conf: &AccountConfig,
    kind: RequestType,
    path: &str,
    headers: &[(&str, &str)],
    parameters: &[(&str, &str)],
) -> (r: Result<KisRequest, KisError>)
    ensures
        outcome(r) == request_spec(*conf, kind, path@, str_pairs(headers@), str_pairs(parameters@)),
        r is Ok ==> r->Ok_0.wf(),
{
    let seeded = KisRequest::new(kind, conf);
    let mut params = seeded.parameters;
    set_all(&mut params, parameters);
    build_request(conf, kind, path, headers, params)
}

/// The seeded header names are in lower case.
pub proof fn lemma_seeded_names_lower(kind: RequestType, conf: AccountConfig)
    ensures
        names_lower(seeded_headers(kind, conf)),
{
    reveal_strlit("content-type");
    reveal_strlit("appkey");
    reveal_strlit("appsecret");
    assert(lower("content-type"@) =~= "content-type"@);
    assert(lower("appkey"@) =~= "appkey"@);
    assert(lower("appsecret"@) =~= "appsecret"@);
}

/// The seeded headers of each kind are exactly those of the table: content
/// type, API key and API secret for GET and POST, content type alone for the
/// token request, whose credentials travel as parameters instead.
pub proof fn lemma_seeded_headers_table(kind: RequestType, conf: AccountConfig)
    ensures
        kind != RequestType::POSTTOKEN ==> seeded_headers(kind, conf).dom() == set![
            "content-type"@,
            "appkey"@,
            "appsecret"@,
        ],
        kind == RequestType::POSTTOKEN ==> seeded_headers(kind, conf).dom() == set!["content-type"@],
        kind == RequestType::POSTTOKEN ==> seeded_parameters(kind, conf).dom() == set![
            "appkey"@,
            "appsecret"@,
            "grant_type"@,
        ],
        kind != RequestType::POSTTOKEN ==> seeded_parameters(kind, conf).dom() == Set::<Seq<char>>::empty(),
        !authorized_headers(RequestType::POSTTOKEN, conf).contains_key("authorization"@),
        kind != RequestType::POSTTOKEN ==> authorized_headers(kind, conf)["authorization"@] == bearer(
            conf.token@,
        ),
{
    reveal_strlit("content-type");
    reveal_strlit("authorization");
    assert("content-type"@.len() == 12 && "authorization"@.len() == 13);
    assert("content-type"@ != "authorization"@);
    assert(seeded_headers(kind, conf).dom() =~= set!["content-type"@, "appkey"@, "appsecret"@]
        || kind == RequestType::POSTTOKEN);
    assert(seeded_headers(kind, conf).dom() =~= set!["content-type"@] || kind != RequestType::POSTTOKEN);
    assert(seeded_parameters(kind, conf).dom() =~= set!["appkey"@, "appsecret"@, "grant_type"@]
        || kind != RequestType::POSTTOKEN);
    assert(seeded_parameters(kind, conf).dom() =~= Set::<Seq<char>>::empty() || kind
        == RequestType::POSTTOKEN);
}

} // verus!
