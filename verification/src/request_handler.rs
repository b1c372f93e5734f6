//! Routing one request: validate the method, take the identifier from the
//! path, classify what the document lookup returned, and keep any data-layer
//! failure from ever reaching the transport.
//!
//! The lookup itself is I/O that the caller performs between `handle_request`
//! and `handle_outcome`; the error boundary `handle_with_errors` then turns a
//! propagated failure into a plain `500` response.

use vstd::prelude::*;
use vstd::string::*;

use crate::response::HttpResponse;
use crate::response::ResData;
use crate::response::full_res;
use crate::response::plain_data;
use crate::response::response_matches;
use crate::response::small_res;

verus! {

/// The request methods the service distinguishes: `GET` is served, `HEAD` is
/// answered empty, everything else is refused.
#[derive(Clone, Copy, PartialEq, Eq, Structural, Debug)]
pub enum RequestMethod {
    Get,
    Head,
    Other,
}

/// What one document lookup came to: a record with its content, no record,
/// or a data-layer failure with its cause.
pub enum LookupOutcome {
    Found(String),
    NotFound,
    Failed(String),
}

/// What to do with a request once method and path are checked: answer it
/// right away, or look the identifier up first.
pub enum HandlerAction {
    Respond(HttpResponse),
    Lookup(String),
}

/// A `GET` request for a found document: its content as a plain-text body.
pub open spec fn found_data(content: String) -> ResData {
    ResData { status: 200, content_type: None, body: Some(content) }
}

/// Only `GET` and `HEAD` are allowed; every other method is refused with
/// `405 Method Not Allowed` before anything else happens.
pub fn check_method(method: RequestMethod) -> (allowed: bool)
    ensures
        allowed == (method is Get || method is Head),
{
    match method {
        RequestMethod::Get => true,
        RequestMethod::Head => true,
        RequestMethod::Other => false,
    }
}

/// Decide a request from its method and path alone: anything but `GET` or
/// `HEAD` is a 405 and `HEAD` is an empty 204, whatever the path looks like;
/// a `GET` for the bare root is a 404, and any other `GET` asks for a lookup
/// of the path with its leading separator stripped. Only in that last case
/// is the data layer consulted at all. The path is read for `GET` alone, so
/// only then must it be in origin form, starting with the separator.
pub fn handle_request(method: RequestMethod, path: &str) -> (action: HandlerAction)
    requires
        method is Get ==> path@.len() >= 1 && path@[0] == '/',
    ensures
        !(method is Get || method is Head) ==> (action matches HandlerAction::Respond(r)
            && r.wf() && response_matches(r, plain_data(405))),
        method is Head ==> (action matches HandlerAction::Respond(r)
            && r.wf() && response_matches(r, plain_data(204))),
        method is Get && path@.len() == 1 ==> (action matches HandlerAction::Respond(r)
            && r.wf() && response_matches(r, plain_data(404))),
        method is Get && path@.len() > 1 ==> (action matches HandlerAction::Lookup(id)
            && id@ == path@.subrange(1, path@.len() as int)),
{
    if !check_method(method) {
        return HandlerAction::Respond(small_res(405));
    }
    if let RequestMethod::Head = method {
        return HandlerAction::Respond(small_res(204));
    }
    let len = path.unicode_len();
    if len == 1 {
        return HandlerAction::Respond(small_res(404));
    }
    let id = path.substring_char(1, len).to_owned();
    HandlerAction::Lookup(id)
}

/// Classify what the data layer handed back for one lookup: a row's content
/// is a found document, no row is "not found", and an error of any kind is a
/// failure — never conflated with an absent row.
pub fn lookup_outcome(rows: Result<Option<String>, String>) -> (outcome: LookupOutcome)
    ensures
        rows matches Ok(Some(content)) ==> (outcome matches LookupOutcome::Found(c)
            && c == content),
        rows matches Ok(None::<String>) ==> outcome is NotFound,
        rows matches Err(cause) ==> (outcome matches LookupOutcome::Failed(c) && c == cause),
{
    match rows {
        Ok(Some(content)) => LookupOutcome::Found(content),
        Ok(None) => LookupOutcome::NotFound,
        Err(cause) => LookupOutcome::Failed(cause),
    }
}

/// Answer a lookup: a found document is a 200 with the content as plain
/// text, an absent one a 404, and a failure is propagated untouched for the
/// error boundary to absorb — no response is synthesized here.
pub fn handle_outcome(outcome: LookupOutcome) -> (result: Result<HttpResponse, String>)
    ensures
        outcome matches LookupOutcome::Found(content) ==> (result matches Ok(r)
            && r.wf() && response_matches(r, found_data(content))),
        outcome is NotFound ==> (result matches Ok(r)
            && r.wf() && response_matches(r, plain_data(404))),
        outcome matches LookupOutcome::Failed(cause) ==> (result matches Err(c) && c == cause),
{
    match outcome {
        LookupOutcome::Found(content) => Ok(full_res(ResData {
            status: 200,
            content_type: None,
            body: Some(content),
        })),
        LookupOutcome::NotFound => Ok(small_res(404)),
        LookupOutcome::Failed(cause) => Err(cause),
    }
}

/// The error boundary: a response passes through untouched, and a propagated
/// data-layer failure becomes a generic 500 with the default reason phrase —
/// a response is always produced, so no failure ever closes the connection.
pub fn handle_with_errors(handled: Result<HttpResponse, String>) -> (r: HttpResponse)
    ensures
        handled matches Ok(resp) ==> r == resp,
        handled is Err ==> r.wf() && response_matches(r, plain_data(500)),
{
    match handled {
        Ok(resp) => resp,
        Err(_) => small_res(500),
    }
}

} // verus!
