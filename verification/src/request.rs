//! What the module reads from a request: its headers, its method, whether it
//! comes from a browser or opens a WebSocket, its full URL and the MIME type
//! it asks for.

use crate::text::{
    chars_of, contains, contains_seq, has_char, has_prefix, lemma_split_nonempty, lowercase,
    slice_of, split, split_chars, starts_with, to_lowercase, trim, trimmed, utf8_text, views,
};
use crate::validation::q_texts;
use vstd::prelude::*;
use vstd::utf8::{decode_utf8, encode_utf8, valid_utf8};

verus! {

// ---------------------------------------------------------------------------
// Headers
// ---------------------------------------------------------------------------

/// A byte with ASCII upper-case letters mapped to lower case.
pub open spec fn ascii_lower(b: u8) -> u8 {
    if 65 <= b <= 90 {
        (b + 32) as u8
    } else {
        b
    }
}

/// Two byte strings that are equal when ASCII letters are compared without
/// regard to case (`str::eq_ignore_ascii_case`).
pub open spec fn eq_ignore_ascii_case(a: Seq<u8>, b: Seq<u8>) -> bool {
    a.len() == b.len() && forall|i: int| 0 <= i < a.len() ==> ascii_lower(a[i]) == ascii_lower(b[i])
}

/// Header names and values as byte strings.
pub open spec fn header_views(h: Seq<(Vec<u8>, Vec<u8>)>) -> Seq<(Seq<u8>, Seq<u8>)> {
    h.map_values(|p: (Vec<u8>, Vec<u8>)| (p.0@, p.1@))
}

/// The value of the first header whose name is UTF-8 and equals `name` up to
/// ASCII case.
pub open spec fn first_header(h: Seq<(Seq<u8>, Seq<u8>)>, name: Seq<u8>) -> Option<Seq<u8>>
    decreases h.len(),
{
    if h.len() == 0 {
        None
    } else if valid_utf8(h[0].0) && eq_ignore_ascii_case(h[0].0, name) {
        Some(h[0].1)
    } else {
        first_header(h.drop_first(), name)
    }
}

/// The value of header `name` as text: none for a blank name, for a missing
/// header, or when the first header of that name has a value that is not
/// UTF-8.
pub open spec fn header_value(h: Seq<(Seq<u8>, Seq<u8>)>, name: Seq<char>) -> Option<Seq<char>> {
    if trimmed(name).len() == 0 {
        None
    } else {
        match first_header(h, encode_utf8(name)) {
            Some(v) => if valid_utf8(v) {
                Some(decode_utf8(v))
            } else {
                None
            },
            None => None,
        }
    }
}

/// Header names are compared without regard to ASCII case: two names equal up
/// to ASCII case find the same header.
pub proof fn lemma_header_lookup_ignores_case(
    h: Seq<(Seq<u8>, Seq<u8>)>,
    a: Seq<u8>,
    b: Seq<u8>,
)
    requires
        eq_ignore_ascii_case(a, b),
    ensures
        first_header(h, a) == first_header(h, b),
    decreases h.len(),
{
    if h.len() > 0 {
        let k = h[0].0;
        assert(eq_ignore_ascii_case(k, a) <==> eq_ignore_ascii_case(k, b));
        lemma_header_lookup_ignores_case(h.drop_first(), a, b);
    }
}

/// An optional string as an optional character sequence.
pub open spec fn text_view(s: Option<String>) -> Option<Seq<char>> {
    match s {
        Some(t) => Some(t@),
        None => None,
    }
}

/// Whether two byte strings are equal up to ASCII case.
fn bytes_eq_ignore_ascii_case(a: &[u8], b: &[u8]) -> (r: bool)
    ensures
        r == eq_ignore_ascii_case(a@, b@),
{
    if a.len() != b.len() {
        return false;
    }
    let mut i: usize = 0;
    while i < a.len()
        invariant
            a@.len() == b@.len(),
            i <= a@.len(),
            forall|j: int| 0 <= j < i ==> ascii_lower(a@[j]) == ascii_lower(b@[j]),
        decreases a.len() - i,
    {
        let x = if 65 <= a[i] && a[i] <= 90 {
            a[i] + 32
        } else {
            a[i]
        };
        let y = if 65 <= b[i] && b[i] <= 90 {
            b[i] + 32
        } else {
            b[i]
        };
        if x != y {
            return false;
        }
        i = i + 1;
    }
    true
}

/// The value of a request header, looked up by name without regard to ASCII
/// case (see [`header_value`]).
pub fn get_header_value(headers: &Vec<(Vec<u8>, Vec<u8>)>, name: &str) -> (r: Option<String>)
    ensures
        text_view(r) == header_value(header_views(headers@), name@),
{
    let name_chars = chars_of(name);
    if trim(&name_chars).len() == 0 {
        return None;
    }
    let wanted = name.as_bytes();
    let ghost h = header_views(headers@);
    let mut i: usize = 0;
    proof {
        assert(h.subrange(0, h.len() as int) =~= h);
    }
    while i < headers.len()
        invariant
            h == header_views(headers@),
            wanted@ == encode_utf8(name@),
            trimmed(name@).len() > 0,
            i <= headers@.len(),
            first_header(h, wanted@) == first_header(h.subrange(i as int, h.len() as int), wanted@),
        decreases headers.len() - i,
    {
        let ghost rest = h.subrange(i as int, h.len() as int);
        proof {
            assert(rest.drop_first() =~= h.subrange(i + 1, h.len() as int));
            assert(rest[0] == (headers@[i as int].0@, headers@[i as int].1@));
        }
        let key = &headers[i].0;
        let value = &headers[i].1;
        if utf8_text(key.as_slice()).is_some() && bytes_eq_ignore_ascii_case(key.as_slice(), wanted) {
            let r = match utf8_text(value.as_slice()) {
                Some(t) => Some(String::from_str(t)),
                None => None,
            };
            return r;
        }
        i = i + 1;
    }
    None
}

// ---------------------------------------------------------------------------
// Browsers and WebSockets
// ---------------------------------------------------------------------------

/// What the Accept header says of the priorities (q-values) of HTML and
/// JSON, measured where the header is read.
#[derive(Clone, Copy, Debug)]
pub struct AcceptSignals {
    /// The priority of `text/html` is above 0.5.
    pub html_preferred: bool,
    /// The priority of `application/json` is above 0.5 and that of
    /// `text/html` below 0.3.
    pub json_preferred: bool,
    /// The priority of `text/html` is above 0.
    pub html_acceptable: bool,
}

/// A User-Agent of a known browser (lower-cased, it contains `mozilla` and an
/// engine or browser name) that is not one of the common API clients.
pub open spec fn browser_user_agent(user_agent: Seq<char>) -> bool {
    let l = lowercase(user_agent);
    let browser = contains_seq(l, "mozilla"@) && (contains_seq(l, "chrome"@) || contains_seq(
        l,
        "safari"@,
    ) || contains_seq(l, "firefox"@) || contains_seq(l, "edge"@) || contains_seq(l, "opera"@)
        || contains_seq(l, "brave"@) || contains_seq(l, "webkit"@));
    let api_client = contains_seq(l, "curl"@) || contains_seq(l, "wget"@) || contains_seq(
        l,
        "python-requests"@,
    ) || contains_seq(l, "go-http-client"@) || contains_seq(l, "java/"@) || contains_seq(
        l,
        "okhttp"@,
    ) || contains_seq(l, "httpie"@) || contains_seq(l, "postman"@) || contains_seq(
        l,
        "insomnia"@,
    ) || has_prefix(l, "rest-client"@) || has_prefix(l, "http"@);
    browser && !api_client
}

/// Whether a request comes from a browser, in order of precedence: a JSON
/// Content-Type means an API client; an Accept header preferring HTML means a
/// browser, one preferring JSON an API client; otherwise a form Content-Type
/// means a browser, and so does a browser User-Agent together with an
/// Upgrade header, no Accept header, or an Accept header that accepts HTML.
pub open spec fn browser_request(
    user_agent: Option<Seq<char>>,
    accept: Option<AcceptSignals>,
    content_type: Option<Seq<char>>,
    has_upgrade: bool,
) -> bool {
    let ct = match content_type {
        Some(c) => Some(lowercase(c)),
        None => None,
    };
    if ct matches Some(c) && has_prefix(c, "application/json"@) {
        false
    } else if accept matches Some(a) && a.html_preferred {
        true
    } else if accept matches Some(a) && a.json_preferred {
        false
    } else {
        let form = ct matches Some(c) && (has_prefix(c, "multipart/form-data"@) || has_prefix(
            c,
            "application/x-www-form-urlencoded"@,
        ));
        let ua = user_agent matches Some(u) && browser_user_agent(u);
        let accepts_html = match accept {
            Some(a) => a.html_acceptable,
            None => true,
        };
        form || (ua && (has_upgrade || accepts_html))
    }
}

/// A JSON Content-Type marks an API client, whatever the other headers say.
pub proof fn lemma_json_content_type_is_api(
    user_agent: Option<Seq<char>>,
    accept: Option<AcceptSignals>,
    content_type: Seq<char>,
    has_upgrade: bool,
)
    requires
        has_prefix(lowercase(content_type), "application/json"@),
    ensures
        !browser_request(user_agent, accept, Some(content_type), has_upgrade),
{
}

/// Without a browser User-Agent and a form Content-Type, a request counts as
/// a browser's only when its Accept header prefers HTML.
pub proof fn lemma_browser_needs_evidence(
    user_agent: Option<Seq<char>>,
    accept: Option<AcceptSignals>,
    content_type: Option<Seq<char>>,
    has_upgrade: bool,
)
    requires
        !(user_agent matches Some(u) && browser_user_agent(u)),
        !(content_type matches Some(c) && (has_prefix(lowercase(c), "multipart/form-data"@)
            || has_prefix(lowercase(c), "application/x-www-form-urlencoded"@))),
        browser_request(user_agent, accept, content_type, has_upgrade),
    ensures
        accept matches Some(a) && a.html_preferred,
{
}

/// Whether `text` contains the literal `lit`.
fn has_text(text: &[char], lit: &str) -> (r: bool)
    ensures
        r == contains_seq(text@, lit@),
{
    let l = chars_of(lit);
    contains(text, &l)
}

/// Whether `text` begins with the literal `lit`.
fn begins_with(text: &[char], lit: &str) -> (r: bool)
    ensures
        r == has_prefix(text@, lit@),
{
    let l = chars_of(lit);
    starts_with(text, &l)
}

/// Whether a User-Agent is that of a browser (see [`browser_user_agent`]).
pub fn is_browser_user_agent(user_agent: &str) -> (r: bool)
    ensures
        r == browser_user_agent(user_agent@),
{
    let lower = to_lowercase(user_agent);
    let l = chars_of(lower.as_str());
    let browser = has_text(&l, "mozilla") && (has_text(&l, "chrome") || has_text(&l, "safari")
        || has_text(&l, "firefox") || has_text(&l, "edge") || has_text(&l, "opera") || has_text(
        &l,
        "brave",
    ) || has_text(&l, "webkit"));
    let api_client = has_text(&l, "curl") || has_text(&l, "wget") || has_text(
        &l,
        "python-requests",
    ) || has_text(&l, "go-http-client") || has_text(&l, "java/") || has_text(&l, "okhttp")
        || has_text(&l, "httpie") || has_text(&l, "postman") || has_text(&l, "insomnia")
        || begins_with(&l, "rest-client") || begins_with(&l, "http");
    browser && !api_client
}

/// Whether a request comes from a browser (see [`browser_request`]), from its
/// User-Agent and Content-Type headers, what its Accept header says, and
/// whether it has an Upgrade header.
pub fn is_browser_request(
    user_agent: Option<&str>,
    accept: Option<AcceptSignals>,
    content_type: Option<&str>,
    has_upgrade: bool,
) -> (r: bool)
    ensures
        r == browser_request(
            match user_agent {
                Some(u) => Some(u@),
                None => None,
            },
            accept,
            match content_type {
                Some(c) => Some(c@),
                None => None,
            },
            has_upgrade,
        ),
{
    let ct = match content_type {
        Some(c) => {
            let lower = to_lowercase(c);
            Some(chars_of(lower.as_str()))
        },
        None => None,
    };
    match &ct {
        Some(c) => {
            if begins_with(c, "application/json") {
                return false;
            }
        },
        None => {},
    }
    match accept {
        Some(a) => {
            if a.html_preferred {
                return true;
            }
            if a.json_preferred {
                return false;
            }
        },
        None => {},
    }
    let form = match &ct {
        Some(c) => begins_with(c, "multipart/form-data") || begins_with(
            c,
            "application/x-www-form-urlencoded",
        ),
        None => false,
    };
    let ua = match user_agent {
        Some(u) => is_browser_user_agent(u),
        None => false,
    };
    let accepts_html = match accept {
        Some(a) => a.html_acceptable,
        None => true,
    };
    form || (ua && (has_upgrade || accepts_html))
}

/// Whether a request asks to become a WebSocket: its Upgrade header is
/// `websocket` and its Connection header mentions `upgrade`, both without
/// regard to case.
pub open spec fn websocket_request(upgrade: Option<Seq<char>>, connection: Option<Seq<char>>) -> bool {
    (upgrade matches Some(u) && lowercase(u) == "websocket"@) && (connection matches Some(c)
        && contains_seq(lowercase(c), "upgrade"@))
}

/// Whether a request asks to become a WebSocket (see [`websocket_request`]).
pub fn is_websocket_request(upgrade: Option<&str>, connection: Option<&str>) -> (r: bool)
    ensures
        r == websocket_request(
            match upgrade {
                Some(u) => Some(u@),
                None => None,
            },
            match connection {
                Some(c) => Some(c@),
                None => None,
            },
        ),
{
    let has_upgrade = match upgrade {
        Some(u) => {
            let lower = to_lowercase(u);
            let l = chars_of(lower.as_str());
            let w = chars_of("websocket");
            crate::text::same_chars(&l, &w)
        },
        None => false,
    };
    let has_connection_upgrade = match connection {
        Some(c) => {
            let lower = to_lowercase(c);
            let l = chars_of(lower.as_str());
            has_text(&l, "upgrade")
        },
        None => false,
    };
    has_upgrade && has_connection_upgrade
}

// ---------------------------------------------------------------------------
// Methods
// ---------------------------------------------------------------------------

/// The HTTP methods the module tells apart.
#[derive(Clone, Copy, Debug, PartialEq, Eq, Structural)]
pub enum HttpMethod {
    Get,
    Head,
    Post,
    Put,
    Delete,
    Options,
    Patch,
    Trace,
    Connect,
}

impl HttpMethod {
    /// The method's name in upper case.
    pub open spec fn name(self) -> Seq<char> {
        match self {
            HttpMethod::Get => "GET"@,
            HttpMethod::Head => "HEAD"@,
            HttpMethod::Post => "POST"@,
            HttpMethod::Put => "PUT"@,
            HttpMethod::Delete => "DELETE"@,
            HttpMethod::Options => "OPTIONS"@,
            HttpMethod::Patch => "PATCH"@,
            HttpMethod::Trace => "TRACE"@,
            HttpMethod::Connect => "CONNECT"@,
        }
    }

    /// The method's name in upper case.
    pub fn as_str(&self) -> (r: &'static str)
        ensures
            r@ == self.name(),
    {
        match self {
            HttpMethod::Get => "GET",
            HttpMethod::Head => "HEAD",
            HttpMethod::Post => "POST",
            HttpMethod::Put => "PUT",
            HttpMethod::Delete => "DELETE",
            HttpMethod::Options => "OPTIONS",
            HttpMethod::Patch => "PATCH",
            HttpMethod::Trace => "TRACE",
            HttpMethod::Connect => "CONNECT",
        }
    }
}

/// The method of nginx's method identifier (`NGX_HTTP_GET` is 2, `HEAD` 4,
/// `POST` 8, `PUT` 0x10, `DELETE` 0x20, `OPTIONS` 0x200, `PATCH` 0x4000,
/// `TRACE` 0x8000, `CONNECT` 0x10000).
pub open spec fn method_of_id(id: usize) -> Option<HttpMethod> {
    if id == 0x2 {
        Some(HttpMethod::Get)
    } else if id == 0x4 {
        Some(HttpMethod::Head)
    } else if id == 0x8 {
        Some(HttpMethod::Post)
    } else if id == 0x10 {
        Some(HttpMethod::Put)
    } else if id == 0x20 {
        Some(HttpMethod::Delete)
    } else if id == 0x200 {
        Some(HttpMethod::Options)
    } else if id == 0x4000 {
        Some(HttpMethod::Patch)
    } else if id == 0x8000 {
        Some(HttpMethod::Trace)
    } else if id == 0x10000 {
        Some(HttpMethod::Connect)
    } else {
        None
    }
}

/// nginx's identifier of each method (`NGX_HTTP_GET`, `NGX_HTTP_HEAD`, ...
/// in `ngx_http_request.h`).
pub open spec fn ngx_method_id(m: HttpMethod) -> usize {
    match m {
        HttpMethod::Get => 0x2,
        HttpMethod::Head => 0x4,
        HttpMethod::Post => 0x8,
        HttpMethod::Put => 0x10,
        HttpMethod::Delete => 0x20,
        HttpMethod::Options => 0x200,
        HttpMethod::Patch => 0x4000,
        HttpMethod::Trace => 0x8000,
        HttpMethod::Connect => 0x10000,
    }
}

/// Text that encodes to the same bytes is the same text.
proof fn lemma_encode_injective(a: Seq<char>, b: Seq<char>)
    ensures
        encode_utf8(a) == encode_utf8(b) ==> a == b,
{
    vstd::utf8::encode_utf8_decode_utf8(a);
    vstd::utf8::encode_utf8_decode_utf8(b);
}

/// The method read from nginx's identifier is the one the identifier stands
/// for, and each method has exactly one identifier; the method read from a
/// request's method name is the method of that name.
pub proof fn lemma_method_ids(m: HttpMethod, id: usize)
    ensures
        method_of_id(ngx_method_id(m)) == Some(m),
        method_of_id(id) == Some(m) ==> id == ngx_method_id(m),
        method_of_name(encode_utf8(m.name())) == Some(m),
        request_method(ngx_method_id(m), encode_utf8(m.name())) == Some(m),
{
    reveal_strlit("GET");
    reveal_strlit("get");
    reveal_strlit("HEAD");
    reveal_strlit("head");
    reveal_strlit("POST");
    reveal_strlit("post");
    reveal_strlit("PUT");
    reveal_strlit("put");
    reveal_strlit("DELETE");
    reveal_strlit("delete");
    reveal_strlit("OPTIONS");
    reveal_strlit("options");
    reveal_strlit("PATCH");
    reveal_strlit("patch");
    reveal_strlit("TRACE");
    reveal_strlit("trace");
    reveal_strlit("CONNECT");
    reveal_strlit("connect");
    assert forall|x: Seq<char>, y: Seq<char>|
        #[trigger] encode_utf8(x) == #[trigger] encode_utf8(y) implies x == y by {
        lemma_encode_injective(x, y);
    }
}

/// Whether the method name is the method's name in upper or in lower case.
pub open spec fn names_method(name: Seq<u8>, upper: Seq<char>, lower: Seq<char>) -> bool {
    name == encode_utf8(upper) || name == encode_utf8(lower)
}

/// The method a request's method name spells, all upper or all lower case.
pub open spec fn method_of_name(name: Seq<u8>) -> Option<HttpMethod> {
    if names_method(name, "GET"@, "get"@) {
        Some(HttpMethod::Get)
    } else if names_method(name, "POST"@, "post"@) {
        Some(HttpMethod::Post)
    } else if names_method(name, "PUT"@, "put"@) {
        Some(HttpMethod::Put)
    } else if names_method(name, "DELETE"@, "delete"@) {
        Some(HttpMethod::Delete)
    } else if names_method(name, "PATCH"@, "patch"@) {
        Some(HttpMethod::Patch)
    } else if names_method(name, "HEAD"@, "head"@) {
        Some(HttpMethod::Head)
    } else if names_method(name, "OPTIONS"@, "options"@) {
        Some(HttpMethod::Options)
    } else if names_method(name, "TRACE"@, "trace"@) {
        Some(HttpMethod::Trace)
    } else if names_method(name, "CONNECT"@, "connect"@) {
        Some(HttpMethod::Connect)
    } else {
        None
    }
}

/// The method of a request: that of its method identifier, else that its
/// method name spells.
pub open spec fn request_method(id: usize, name: Seq<u8>) -> Option<HttpMethod> {
    match method_of_id(id) {
        Some(m) => Some(m),
        None => method_of_name(name),
    }
}

/// Whether two byte strings are equal.
fn same_bytes(a: &[u8], b: &[u8]) -> (r: bool)
    ensures
        r == (a@ == b@),
{
    if a.len() != b.len() {
        return false;
    }
    let mut i: usize = 0;
    while i < a.len()
        invariant
            a@.len() == b@.len(),
            i <= a@.len(),
            forall|j: int| 0 <= j < i ==> a@[j] == b@[j],
        decreases a.len() - i,
    {
        if a[i] != b[i] {
            return false;
        }
        i = i + 1;
    }
    assert(a@ =~= b@);
    true
}

/// Whether the method name is `upper` or `lower`.
fn is_named(name: &[u8], upper: &str, lower: &str) -> (r: bool)
    ensures
        r == names_method(name@, upper@, lower@),
{
    same_bytes(name, upper.as_bytes()) || same_bytes(name, lower.as_bytes())
}

/// The method of a request from nginx's method identifier and the request's
/// method name (empty when nginx has none), see [`request_method`].
pub fn get_http_method(method_id: usize, method_name: &[u8]) -> (r: Option<HttpMethod>)
    ensures
        r == request_method(method_id, method_name@),
{
    if method_id == 0x2 {
        Some(HttpMethod::Get)
    } else if method_id == 0x4 {
        Some(HttpMethod::Head)
    } else if method_id == 0x8 {
        Some(HttpMethod::Post)
    } else if method_id == 0x10 {
        Some(HttpMethod::Put)
    } else if method_id == 0x20 {
        Some(HttpMethod::Delete)
    } else if method_id == 0x200 {
        Some(HttpMethod::Options)
    } else if method_id == 0x4000 {
        Some(HttpMethod::Patch)
    } else if method_id == 0x8000 {
        Some(HttpMethod::Trace)
    } else if method_id == 0x10000 {
        Some(HttpMethod::Connect)
    } else if is_named(method_name, "GET", "get") {
        Some(HttpMethod::Get)
    } else if is_named(method_name, "POST", "post") {
        Some(HttpMethod::Post)
    } else if is_named(method_name, "PUT", "put") {
        Some(HttpMethod::Put)
    } else if is_named(method_name, "DELETE", "delete") {
        Some(HttpMethod::Delete)
    } else if is_named(method_name, "PATCH", "patch") {
        Some(HttpMethod::Patch)
    } else if is_named(method_name, "HEAD", "head") {
        Some(HttpMethod::Head)
    } else if is_named(method_name, "OPTIONS", "options") {
        Some(HttpMethod::Options)
    } else if is_named(method_name, "TRACE", "trace") {
        Some(HttpMethod::Trace)
    } else if is_named(method_name, "CONNECT", "connect") {
        Some(HttpMethod::Connect)
    } else {
        None
    }
}

/// The methods that never pay: CORS preflights (OPTIONS), existence checks
/// (HEAD) and diagnostics (TRACE).
pub open spec fn skips_payment(method: Option<HttpMethod>) -> bool {
    method == Some(HttpMethod::Options) || method == Some(HttpMethod::Head) || method == Some(
        HttpMethod::Trace,
    )
}

/// Whether a request with this method goes without payment.
pub fn should_skip_payment_for_method(method: Option<HttpMethod>) -> (r: bool)
    ensures
        r == skips_payment(method),
{
    match method {
        Some(HttpMethod::Options) | Some(HttpMethod::Head) | Some(HttpMethod::Trace) => true,
        _ => false,
    }
}

// ---------------------------------------------------------------------------
// URLs and MIME types
// ---------------------------------------------------------------------------

/// The full URL of a request: `https` when the X-Forwarded-Proto header says
/// so (without regard to case), `http` otherwise; then `://`, the Host header
/// and the path, with a `/` put in front of a path that lacks one. None
/// without a Host header or a readable path.
pub open spec fn full_url(
    forwarded_proto: Option<Seq<char>>,
    host: Option<Seq<char>>,
    path: Option<Seq<char>>,
) -> Option<Seq<char>> {
    let scheme = if forwarded_proto matches Some(p) && lowercase(p) == "https"@ {
        "https"@
    } else {
        "http"@
    };
    match host {
        None => None,
        Some(h) => match path {
            None => None,
            Some(p) => {
                let uri = if p.len() > 0 && p[0] == '/' {
                    p
                } else {
                    seq!['/'] + p
                };
                Some(scheme + "://"@ + h + uri)
            },
        },
    }
}

/// The full URL of a request (see [`full_url`]).
pub fn build_full_url(forwarded_proto: Option<&str>, host: Option<&str>, path: Option<&str>) -> (r:
    Option<String>)
    ensures
        text_view(r) == full_url(
            match forwarded_proto {
                Some(p) => Some(p@),
                None => None,
            },
            match host {
                Some(h) => Some(h@),
                None => None,
            },
            match path {
                Some(p) => Some(p@),
                None => None,
            },
        ),
{
    let https = match forwarded_proto {
        Some(p) => {
            let lower = to_lowercase(p);
            let l = chars_of(lower.as_str());
            let w = chars_of("https");
            crate::text::same_chars(&l, &w)
        },
        None => false,
    };
    let host = match host {
        Some(h) => h,
        None => return None,
    };
    let path = match path {
        Some(p) => p,
        None => return None,
    };
    let mut url = if https {
        String::from_str("https")
    } else {
        String::from_str("http")
    };
    url.append("://");
    url.append(host);
    let p = chars_of(path);
    if !(p.len() > 0 && p[0] == '/') {
        url.append("/");
        proof {
            reveal_strlit("/");
        }
    }
    url.append(path);
    Some(url)
}

/// The part of `s` before the first `sep`, trimmed.
pub open spec fn first_piece(s: Seq<char>, sep: char) -> Seq<char> {
    trimmed(split(s, sep)[0])
}

// ---------------------------------------------------------------------------
// MIME types
// ---------------------------------------------------------------------------

/// Every character is a decimal digit.
pub open spec fn all_digits(s: Seq<char>) -> bool {
    forall|i: int| 0 <= i < s.len() ==> '0' <= #[trigger] s[i] && s[i] <= '9'
}

/// Every character is `0`.
pub open spec fn all_zeros(s: Seq<char>) -> bool {
    forall|i: int| 0 <= i < s.len() ==> #[trigger] s[i] == '0'
}

/// The value of the `i`-th digit, 0 past the end.
pub open spec fn digit_at(s: Seq<char>, i: int) -> int {
    if 0 <= i < s.len() {
        s[i] as int - 48
    } else {
        0
    }
}

/// The weight of a q-value text in thousandths: an optional sign, digits, and
/// optionally a point and more digits, with at least one digit. A negative
/// weight counts as 0 and one above 1 as 1; decimals past the third are
/// dropped. `None` for any other text, which is then ignored.
pub open spec fn qvalue(t: Seq<char>) -> Option<int> {
    let signed = t.len() > 0 && (t[0] == '+' || t[0] == '-');
    let body = if signed {
        t.drop_first()
    } else {
        t
    };
    let parts = split(body, '.');
    let ip = parts[0];
    let fp = if parts.len() == 2 {
        parts[1]
    } else {
        Seq::<char>::empty()
    };
    if parts.len() > 2 || (ip.len() == 0 && fp.len() == 0) || !all_digits(ip) || !all_digits(fp) {
        None
    } else if signed && t[0] == '-' {
        Some(0)
    } else if !all_zeros(ip) {
        Some(1000)
    } else {
        Some(digit_at(fp, 0) * 100 + digit_at(fp, 1) * 10 + digit_at(fp, 2))
    }
}

/// The weight given by the last of these `q=` values that reads as a
/// q-value, else `w`.
pub open spec fn last_weight(qs: Seq<Seq<char>>, w: int) -> int
    decreases qs.len(),
{
    if qs.len() == 0 {
        w
    } else {
        last_weight(
            qs.drop_first(),
            match qvalue(qs[0]) {
                Some(v) => v,
                None => w,
            },
        )
    }
}

/// The media type of a range of an Accept header and its weight (1000 when
/// it has no readable `q=` value).
pub open spec fn range_weight(range: Seq<char>) -> (Seq<char>, int) {
    let params = split(range, ';');
    (trimmed(params[0]), last_weight(q_texts(params.drop_first()), 1000))
}

/// The media type of the highest weight among these ranges, the earliest
/// among equals, starting from `best`; a range counts when its media type is
/// not blank, holds no wildcard and has a weight above 0.
pub open spec fn best_media(ranges: Seq<Seq<char>>, best: Option<(Seq<char>, int)>) -> Option<
    (Seq<char>, int),
>
    decreases ranges.len(),
{
    if ranges.len() == 0 {
        best
    } else {
        let (m, w) = range_weight(ranges[0]);
        let counts = m.len() > 0 && !m.contains('*') && w > 0;
        let better = match best {
            Some((_, bw)) => w > bw,
            None => true,
        };
        let next = if counts && better {
            Some((m, w))
        } else {
            best
        };
        best_media(ranges.drop_first(), next)
    }
}

/// Whether an Accept range takes part in the choice: its media type is not
/// blank, holds no wildcard, and its weight is above 0.
pub open spec fn range_counts(range: Seq<char>) -> bool {
    let (m, w) = range_weight(range);
    m.len() > 0 && !m.contains('*') && w > 0
}

/// The choice among Accept ranges, started from `best`, ends with a range
/// whose weight is at least that of `best` and of every range that takes
/// part, and which is `best` itself or one of those ranges.
proof fn lemma_best_media_from(rs: Seq<Seq<char>>, b: Option<(Seq<char>, int)>)
    ensures
        b is Some ==> (best_media(rs, b) is Some && b.unwrap().1 <= best_media(rs, b).unwrap().1),
        forall|i: int|
            0 <= i < rs.len() && #[trigger] range_counts(rs[i]) ==> (best_media(rs, b) is Some
                && range_weight(rs[i]).1 <= best_media(rs, b).unwrap().1),
        best_media(rs, b) is Some ==> (best_media(rs, b) == b || exists|i: int|
            0 <= i < rs.len() && #[trigger] range_counts(rs[i]) && range_weight(rs[i])
                == best_media(rs, b)->0),
    decreases rs.len(),
{
    if rs.len() > 0 {
        let (m, w) = range_weight(rs[0]);
        let counts = m.len() > 0 && !m.contains('*') && w > 0;
        let better = match b {
            Some((_, bw)) => w > bw,
            None => true,
        };
        let next = if counts && better {
            Some((m, w))
        } else {
            b
        };
        let tail = rs.drop_first();
        lemma_best_media_from(tail, next);
        assert(best_media(rs, b) == best_media(tail, next));
        assert forall|i: int| 0 <= i < rs.len() && #[trigger] range_counts(rs[i]) implies (best_media(
            rs,
            b,
        ) is Some && range_weight(rs[i]).1 <= best_media(rs, b).unwrap().1) by {
            if i > 0 {
                assert(tail[i - 1] == rs[i]);
            }
        }
        if best_media(rs, b) is Some && best_media(rs, b) != b {
            if best_media(tail, next) == next {
                assert(range_counts(rs[0]));
            } else {
                let j = choose|j: int|
                    0 <= j < tail.len() && #[trigger] range_counts(tail[j]) && range_weight(tail[j])
                        == best_media(tail, next)->0;
                assert(rs[j + 1] == tail[j]);
            }
        }
    }
}

/// The media type chosen from an Accept header is that of a range that takes
/// part and has the highest weight among them; when none takes part, none is
/// chosen.
pub proof fn lemma_best_media_highest(ranges: Seq<Seq<char>>)
    ensures
        best_media(ranges, None) is None <==> forall|i: int|
            0 <= i < ranges.len() ==> !#[trigger] range_counts(ranges[i]),
        best_media(ranges, None) matches Some(c) ==> {
            &&& exists|i: int|
                0 <= i < ranges.len() && #[trigger] range_counts(ranges[i]) && range_weight(
                    ranges[i],
                ) == c
            &&& forall|i: int|
                0 <= i < ranges.len() && #[trigger] range_counts(ranges[i])
                    ==> range_weight(ranges[i]).1 <= c.1
        },
{
    lemma_best_media_from(ranges, None);
}

/// The MIME type a request deals in: the media type of its Content-Type
/// header when that is not blank; else the media type of highest priority
/// (q-value, then position) in its Accept header; else JSON.
pub open spec fn mime_type_of(content_type: Option<Seq<char>>, accept: Option<Seq<char>>) -> Seq<
    char,
> {
    let ct_type = match content_type {
        Some(c) => first_piece(c, ';'),
        None => Seq::<char>::empty(),
    };
    if ct_type.len() > 0 {
        ct_type
    } else {
        match accept {
            Some(a) => match best_media(split(a, ','), None) {
                Some(b) => b.0,
                None => "application/json"@,
            },
            None => "application/json"@,
        }
    }
}

/// The trimmed part of `s` before the first `sep`.
fn first_piece_of(s: &[char], sep: char) -> (r: Vec<char>)
    ensures
        r@ == first_piece(s@, sep),
{
    let parts = split_chars(s, sep);
    proof {
        lemma_split_nonempty(s@, sep);
    }
    trim(&parts[0])
}

/// Whether every character is a decimal digit.
fn all_digit_chars(s: &[char]) -> (r: bool)
    ensures
        r == all_digits(s@),
{
    let mut i: usize = 0;
    while i < s.len()
        invariant
            i <= s@.len(),
            forall|j: int| 0 <= j < i ==> '0' <= #[trigger] s@[j] && s@[j] <= '9',
        decreases s.len() - i,
    {
        if !('0' <= s[i] && s[i] <= '9') {
            return false;
        }
        i = i + 1;
    }
    true
}

/// Whether some character is not `0`.
fn has_nonzero(s: &[char]) -> (r: bool)
    ensures
        r == !all_zeros(s@),
{
    let mut i: usize = 0;
    while i < s.len()
        invariant
            i <= s@.len(),
            forall|j: int| 0 <= j < i ==> s@[j] == '0',
        decreases s.len() - i,
    {
        if s[i] != '0' {
            return true;
        }
        i = i + 1;
    }
    false
}

/// The value of the `i`-th digit, 0 past the end.
fn digit_of(s: &[char], i: usize) -> (r: u32)
    requires
        all_digits(s@),
    ensures
        r == digit_at(s@, i as int),
        r <= 9,
{
    if i < s.len() {
        let c = s[i];
        assert('0' <= s@[i as int] && s@[i as int] <= '9');
        (c as u32) - 48
    } else {
        0
    }
}

/// The weight of a q-value text (see [`qvalue`]).
fn qvalue_of(t: &[char]) -> (r: Option<u32>)
    ensures
        match r {
            Some(v) => qvalue(t@) == Some(v as int),
            None => qvalue(t@) is None,
        },
{
    let n = t.len();
    let signed = n > 0 && (t[0] == '+' || t[0] == '-');
    let body = if signed {
        slice_of(t, 1, n)
    } else {
        slice_of(t, 0, n)
    };
    proof {
        if signed {
            assert(body@ =~= t@.drop_first());
        } else {
            assert(body@ =~= t@);
        }
        lemma_split_nonempty(body@, '.');
    }
    let parts = split_chars(&body, '.');
    if parts.len() > 2 {
        return None;
    }
    let empty: Vec<char> = Vec::new();
    let ip: &Vec<char> = &parts[0];
    let fp: &Vec<char> = if parts.len() == 2 {
        &parts[1]
    } else {
        &empty
    };
    proof {
        assert(empty@ =~= Seq::<char>::empty());
    }
    if (ip.len() == 0 && fp.len() == 0) || !all_digit_chars(ip) || !all_digit_chars(fp) {
        return None;
    }
    if signed && t[0] == '-' {
        return Some(0);
    }
    if has_nonzero(ip) {
        return Some(1000);
    }
    Some(digit_of(fp, 0) * 100 + digit_of(fp, 1) * 10 + digit_of(fp, 2))
}

/// The weight of a range (see [`range_weight`]).
fn weight_of_range(range: &[char]) -> (r: (Vec<char>, u32))
    ensures
        (r.0@, r.1 as int) == range_weight(range@),
{
    let params = split_chars(range, ';');
    proof {
        lemma_split_nonempty(range@, ';');
    }
    let media = trim(&params[0]);
    let qs = crate::validation::q_values_of(&params);
    let ghost all = views(qs@);
    let mut w: u32 = 1000;
    let mut k: usize = 0;
    proof {
        assert(all.subrange(0, all.len() as int) =~= all);
    }
    while k < qs.len()
        invariant
            k <= qs@.len(),
            all == views(qs@),
            w <= 1000,
            last_weight(all, 1000) == last_weight(all.subrange(k as int, all.len() as int), w as int),
        decreases qs.len() - k,
    {
        let ghost rest = all.subrange(k as int, all.len() as int);
        proof {
            assert(rest.drop_first() =~= all.subrange(k + 1, all.len() as int));
            assert(rest[0] == qs@[k as int]@);
        }
        match qvalue_of(&qs[k]) {
            Some(v) => {
                w = v;
            },
            None => {},
        }
        k = k + 1;
    }
    proof {
        assert(all.subrange(all.len() as int, all.len() as int) =~= Seq::<Seq<char>>::empty());
    }
    (media, w)
}

/// A media range whose parameters give no `q=` value has the full weight
/// (1000 thousandths); one whose last readable `q=` value is `q` has weight
/// `q`.
pub proof fn lemma_range_weight_default(range: Seq<char>)
    ensures
        q_texts(split(range, ';').drop_first()).len() == 0 ==> range_weight(range).1 == 1000,
        ({
            let qs = q_texts(split(range, ';').drop_first());
            qs.len() > 0 ==> (qvalue(qs.last()) matches Some(v) ==> range_weight(range).1 == v)
        }),
        0 <= range_weight(range).1 <= 1000,
{
    let qs = q_texts(split(range, ';').drop_first());
    lemma_last_weight_bound(qs, 1000);
    if qs.len() > 0 {
        lemma_last_weight_last(qs, 1000);
    }
}

/// The weight given by a non-empty list of `q=` values whose last one reads
/// is that last one.
proof fn lemma_last_weight_last(qs: Seq<Seq<char>>, w: int)
    requires
        qs.len() > 0,
    ensures
        qvalue(qs.last()) matches Some(v) ==> last_weight(qs, w) == v,
    decreases qs.len(),
{
    if qs.len() > 1 {
        let next = match qvalue(qs[0]) {
            Some(v) => v,
            None => w,
        };
        assert(qs.drop_first().last() == qs.last());
        lemma_last_weight_last(qs.drop_first(), next);
    } else {
        assert(qs.last() == qs[0]);
        if let Some(v) = qvalue(qs[0]) {
            assert(last_weight(qs.drop_first(), v) == v);
        }
    }
}

/// The weight given by a list of `q=` values never exceeds the full weight
/// when it starts from at most that.
proof fn lemma_last_weight_bound(qs: Seq<Seq<char>>, w: int)
    requires
        0 <= w <= 1000,
    ensures
        0 <= last_weight(qs, w) <= 1000,
    decreases qs.len(),
{
    if qs.len() > 0 {
        let next = match qvalue(qs[0]) {
            Some(v) => v,
            None => w,
        };
        lemma_qvalue_bound(qs[0]);
        lemma_last_weight_bound(qs.drop_first(), next);
    }
}

/// A q-value reads as a weight from 0 to 1000 thousandths.
proof fn lemma_qvalue_bound(t: Seq<char>)
    ensures
        qvalue(t) matches Some(v) ==> 0 <= v <= 1000,
{
    let signed = t.len() > 0 && (t[0] == '+' || t[0] == '-');
    let body = if signed {
        t.drop_first()
    } else {
        t
    };
    let parts = split(body, '.');
    let fp = if parts.len() == 2 {
        parts[1]
    } else {
        Seq::<char>::empty()
    };
    if all_digits(fp) {
        assert(0 <= digit_at(fp, 0) <= 9);
        assert(0 <= digit_at(fp, 1) <= 9);
        assert(0 <= digit_at(fp, 2) <= 9);
    }
}

/// The media type of highest priority among comma-separated ranges (see
/// [`best_media`]).
fn best_media_of(ranges: &Vec<Vec<char>>) -> (r: Option<Vec<char>>)
    ensures
        match r {
            Some(m) => best_media(views(ranges@), None) matches Some(b) && b.0 == m@,
            None => best_media(views(ranges@), None) is None,
        },
{
    let ghost all = views(ranges@);
    let mut best: Option<(Vec<char>, u32)> = None;
    let mut i: usize = 0;
    proof {
        assert(all.subrange(0, all.len() as int) =~= all);
    }
    while i < ranges.len()
        invariant
            i <= ranges@.len(),
            all == views(ranges@),
            best_media(all, None) == best_media(
                all.subrange(i as int, all.len() as int),
                match best {
                    Some(b) => Some((b.0@, b.1 as int)),
                    None => None,
                },
            ),
        decreases ranges.len() - i,
    {
        let ghost rest = all.subrange(i as int, all.len() as int);
        proof {
            assert(rest.drop_first() =~= all.subrange(i + 1, all.len() as int));
            assert(rest[0] == ranges@[i as int]@);
        }
        let (m, w) = weight_of_range(&ranges[i]);
        let counts = m.len() > 0 && !has_char(&m, '*') && w > 0;
        let better = match &best {
            None => true,
            Some(b) => w > b.1,
        };
        if counts && better {
            best = Some((m, w));
        }
        i = i + 1;
    }
    proof {
        assert(all.subrange(all.len() as int, all.len() as int) =~= Seq::<Seq<char>>::empty());
    }
    match best {
        Some(b) => Some(b.0),
        None => None,
    }
}

/// The MIME type a request deals in (see [`mime_type_of`]).
pub fn infer_mime_type(content_type: Option<&str>, accept: Option<&str>) -> (r: String)
    ensures
        r@ == mime_type_of(opt_str(content_type), opt_str(accept)),
{
    match content_type {
        Some(c) => {
            let m = first_piece_of(&chars_of(c), ';');
            if m.len() > 0 {
                return crate::text::string_of(&m);
            }
        },
        None => {},
    }
    match accept {
        None => String::from_str("application/json"),
        Some(a) => {
            let ranges = split_chars(&chars_of(a), ',');
            match best_media_of(&ranges) {
                Some(m) => crate::text::string_of(&m),
                None => String::from_str("application/json"),
            }
        },
    }
}

/// An optional string slice as optional text.
pub open spec fn opt_str(s: Option<&str>) -> Option<Seq<char>> {
    match s {
        Some(t) => Some(t@),
        None => None,
    }
}

} // verus!
