//! Building HTTP responses: a status code with an optional content type and
//! body becomes a full response descriptor with caching and CORS headers,
//! a default body, and an entity-tag validator over the body.

use vstd::prelude::*;

verus! {

/// How long (in seconds) clients may cache a response; also drives the
/// `Expires` header.
pub const MAX_AGE_SECONDS: u64 = 300;

/// What a caller asks the response builder for: a status code, an optional
/// content type (`text/plain` when absent) and an optional body (the status's
/// canonical reason phrase when absent).
pub struct ResData {
    pub status: u16,
    pub content_type: Option<String>,
    pub body: Option<String>,
}

/// The statuses this service ever answers with. A response with no explicit
/// body falls back to the status's reason phrase, so the builder accepts a
/// bodiless request only for these.
pub open spec fn known_status(status: u16) -> bool {
    ||| status == 200
    ||| status == 204
    ||| status == 404
    ||| status == 405
    ||| status == 500
}

/// The canonical reason phrase of each status the service answers with.
pub open spec fn reason_phrase(status: u16) -> Seq<char>
    recommends
        known_status(status),
{
    if status == 200 {
        "OK"@
    } else if status == 204 {
        "No Content"@
    } else if status == 404 {
        "Not Found"@
    } else if status == 405 {
        "Method Not Allowed"@
    } else {
        "Internal Server Error"@
    }
}

/// The entity tag that `etag::EntityTag::from_data` derives from the UTF-8
/// bytes of a string: a pure function of the characters alone.
pub uninterp spec fn etag_of(body: Seq<char>) -> Seq<char>;

/// Relies on `hyper::StatusCode::from_u16` (valid for every code in
/// 100..=599) and `hyper::StatusCode::canonical_reason`: the standard
/// reason-phrase table, stated here for the statuses the service uses.
#[verifier::external_body]
fn canonical_reason_of(status: u16) -> (reason: Option<String>)
    requires
        100 <= status <= 599,
    ensures
        (match reason {
            Some(s) => !known_status(status) || s@ == reason_phrase(status),
            None => !known_status(status),
        }),
{
    match hyper::StatusCode::from_u16(status) {
        Ok(code) => match code.canonical_reason() {
            Some(reason) => Some(reason.to_owned()),
            None => None,
        },
        Err(_) => None,
    }
}

/// Relies on `etag::EntityTag::from_data` and `EntityTag::tag`: a strong tag
/// of the form `{length}-{hash}` over the body's bytes, a deterministic
/// function of them, always at least three characters long.
#[verifier::external_body]
fn compute_etag(body: &str) -> (tag: String)
    ensures
        tag@ == etag_of(body@),
        tag@.len() >= 3,
{
    etag::EntityTag::from_data(body.as_bytes()).tag().to_owned()
}

/// Relies on `httpdate::fmt_http_date`, fed `std::time::SystemTime::now`
/// plus `Duration::from_secs(secs)`: formats the clock reading `secs`
/// seconds from now as an IMF-fixdate, exactly 29 characters ending in
/// ` GMT`. With `secs` bounded, the only inputs on which the addition or
/// the formatter panics need a host clock before 1970 or within `secs` of
/// the year 9999.
#[verifier::external_body]
fn expires_header(secs: u64) -> (date: String)
    requires
        secs <= MAX_AGE_SECONDS,
    ensures
        date@.len() == 29,
        date@.subrange(25, 29) == " GMT"@,
{
    httpdate::fmt_http_date(std::time::SystemTime::now() + std::time::Duration::from_secs(secs))
}

/// A complete response: status, body, and every header the service sets.
/// The transport layer copies these fields out verbatim.
pub struct HttpResponse {
    pub status: u16,
    pub body: String,
    pub content_type: Option<String>,
    pub etag: Option<String>,
    pub cache_control: String,
    pub expires: String,
    pub access_control_allow_origin: String,
    pub access_control_max_age: String,
    pub vary: String,
}

impl HttpResponse {
    /// Every response carries the fixed caching and CORS headers, and a
    /// `204 No Content` response advertises no representation: no body,
    /// no content type, no entity tag. Any other status carries all three.
    pub open spec fn wf(self) -> bool {
        &&& self.access_control_allow_origin@ == "*"@
        &&& self.access_control_max_age@ == "300"@
        &&& self.cache_control@ == "public, max-age=300"@
        &&& self.vary@ == "Origin"@
        &&& self.expires@.len() == 29
        &&& self.expires@.subrange(25, 29) == " GMT"@
        &&& self.status == 204 ==> {
            &&& self.body@ == Seq::<char>::empty()
            &&& self.content_type is None
            &&& self.etag is None
        }
        &&& self.status != 204 ==> {
            &&& self.content_type is Some
            &&& self.etag is Some
        }
        &&& self.etag matches Some(tag) ==> tag@.len() >= 3
    }
}

/// The body a request for `data` is answered with: empty for 204, else the
/// explicit body, else the status's reason phrase.
pub open spec fn response_body(data: ResData) -> Seq<char> {
    if data.status == 204 {
        Seq::<char>::empty()
    } else {
        match data.body {
            Some(b) => b@,
            None => reason_phrase(data.status),
        }
    }
}

/// The content type a request for `data` is answered with: none for 204,
/// else the explicit one, else `text/plain`.
pub open spec fn response_content_type(data: ResData) -> Option<Seq<char>> {
    if data.status == 204 {
        None
    } else {
        match data.content_type {
            Some(ct) => Some(ct@),
            None => Some("text/plain"@),
        }
    }
}

/// The entity tag a request for `data` is answered with: none for 204, else
/// the tag of the response body.
pub open spec fn response_etag(data: ResData) -> Option<Seq<char>> {
    if data.status == 204 {
        None
    } else {
        Some(etag_of(response_body(data)))
    }
}

/// A request for a bare status: no explicit content type or body.
pub open spec fn plain_data(status: u16) -> ResData {
    ResData { status, content_type: None, body: None }
}

/// The response `r` is exactly what `data` asks for, in status, body,
/// content type and entity tag. (The `Expires` header follows the clock and
/// is pinned only by `wf`.)
pub open spec fn response_matches(r: HttpResponse, data: ResData) -> bool {
    &&& r.status == data.status
    &&& r.body@ == response_body(data)
    &&& r.content_type.deep_view() == response_content_type(data)
    &&& r.etag.deep_view() == response_etag(data)
}

/// Build the response for `data`: the requested status, the explicit or
/// defaulted body and content type, the fixed caching and CORS headers, an
/// `Expires` date `MAX_AGE_SECONDS` from now, and an entity tag over the
/// body — except for 204, which advertises no representation.
pub fn full_res(data: ResData) -> (r: HttpResponse)
    requires
        100 <= data.status <= 599,
        data.body is None ==> known_status(data.status),
    ensures
        r.wf(),
        response_matches(r, data),
{
    let status = data.status;
    let body = match data.body {
        Some(b) => b,
        None => match canonical_reason_of(status) {
            Some(reason) => reason,
            None => unreached(),
        },
    };
    let expires = expires_header(MAX_AGE_SECONDS);
    if status != 204 {
        let content_type = match data.content_type {
            Some(ct) => ct,
            None => "text/plain".to_owned(),
        };
        let etag = compute_etag(body.as_str());
        HttpResponse {
            status,
            body,
            content_type: Some(content_type),
            etag: Some(etag),
            cache_control: "public, max-age=300".to_owned(),
            expires,
            access_control_allow_origin: "*".to_owned(),
            access_control_max_age: "300".to_owned(),
            vary: "Origin".to_owned(),
        }
    } else {
        HttpResponse {
            status,
            body: String::new(),
            content_type: None,
            etag: None,
            cache_control: "public, max-age=300".to_owned(),
            expires,
            access_control_allow_origin: "*".to_owned(),
            access_control_max_age: "300".to_owned(),
            vary: "Origin".to_owned(),
        }
    }
}

/// Law: the entity tag is a pure function of the body bytes — the same body
/// always yields the same tag, on every call and in every process.
pub proof fn lemma_etag_deterministic(body1: Seq<char>, body2: Seq<char>)
    requires
        body1 == body2,
    ensures
        etag_of(body1) == etag_of(body2),
{
}

/// Law: repeating a request with no intervening data change yields an
/// identical answer. Any two responses built for the same data — two runs of
/// the builder, however far apart — agree on status, body, content type and
/// entity tag; only the `Expires` date follows the clock.
pub proof fn lemma_same_data_same_answer(data: ResData, r1: HttpResponse, r2: HttpResponse)
    requires
        response_matches(r1, data),
        response_matches(r2, data),
    ensures
        r1.status == r2.status,
        r1.body@ == r2.body@,
        r1.content_type.deep_view() == r2.content_type.deep_view(),
        r1.etag.deep_view() == r2.etag.deep_view(),
{
}

/// Build the response for a bare status: default content type and body.
pub fn small_res(status: u16) -> (r: HttpResponse)
    requires
        known_status(status),
    ensures
        r.wf(),
        response_matches(r, plain_data(status)),
{
    full_res(ResData { status, content_type: None, body: None })
}

} // verus!
