use docserve::request_handler::HandlerAction;
use docserve::request_handler::LookupOutcome;
use docserve::request_handler::RequestMethod;
use docserve::request_handler::check_method;
use docserve::request_handler::handle_outcome;
use docserve::request_handler::handle_request;
use docserve::request_handler::handle_with_errors;

fn respond_of(action: HandlerAction) -> docserve::response::HttpResponse {
    match action {
        HandlerAction::Respond(r) => r,
        HandlerAction::Lookup(id) => panic!("expected an immediate response, got a lookup of {:?}", id),
    }
}

fn lookup_of(action: HandlerAction) -> String {
    match action {
        HandlerAction::Respond(r) => panic!("expected a lookup, got status {}", r.status),
        HandlerAction::Lookup(id) => id,
    }
}

#[test]
fn check_method_allows_get_and_head_only() {
    assert!(check_method(RequestMethod::Get));
    assert!(check_method(RequestMethod::Head));
    assert!(!check_method(RequestMethod::Other));
}

#[test]
fn non_get_head_is_405_on_any_path() {
    // Including the asterisk-form and empty paths the transport can hand
    // over for methods other than GET.
    for path in ["/", "/doc1", "/a/b/c", "*", ""] {
        let r = respond_of(handle_request(RequestMethod::Other, path));
        assert_eq!(r.status, 405);
        assert_eq!(r.body, "Method Not Allowed");
        assert_eq!(r.content_type.as_deref(), Some("text/plain"));
    }
}

#[test]
fn head_is_204_with_no_representation() {
    for path in ["/", "/doc1", "*"] {
        let r = respond_of(handle_request(RequestMethod::Head, path));
        assert_eq!(r.status, 204);
        assert_eq!(r.body, "");
        assert!(r.content_type.is_none());
        assert!(r.etag.is_none());
    }
}

#[test]
fn get_root_is_404_without_a_lookup() {
    // The action is an immediate response, never a lookup: the data layer
    // is not consulted for the root path.
    let r = respond_of(handle_request(RequestMethod::Get, "/"));
    assert_eq!(r.status, 404);
    assert_eq!(r.body, "Not Found");
}

#[test]
fn get_strips_the_leading_separator() {
    assert_eq!(lookup_of(handle_request(RequestMethod::Get, "/doc1")), "doc1");
    assert_eq!(lookup_of(handle_request(RequestMethod::Get, "/a/b/c")), "a/b/c");
    assert_eq!(lookup_of(handle_request(RequestMethod::Get, "/héllo")), "héllo");
}

#[test]
fn found_record_is_200_with_its_content() {
    let id = lookup_of(handle_request(RequestMethod::Get, "/doc1"));
    assert_eq!(id, "doc1");
    let r = handle_outcome(LookupOutcome::Found("hello".to_owned())).unwrap();
    assert_eq!(r.status, 200);
    assert_eq!(r.body, "hello");
    assert_eq!(r.content_type.as_deref(), Some("text/plain"));
    let tag = r.etag.expect("a 200 carries an entity tag");
    assert!(!tag.is_empty());
}

#[test]
fn missing_record_is_404() {
    let r = handle_outcome(LookupOutcome::NotFound).unwrap();
    assert_eq!(r.status, 404);
    assert_eq!(r.body, "Not Found");
}

#[test]
fn failure_propagates_to_the_boundary() {
    let e = handle_outcome(LookupOutcome::Failed("connection refused".to_owned()));
    match e {
        Ok(r) => panic!("a failure must propagate, got status {}", r.status),
        Err(cause) => assert_eq!(cause, "connection refused"),
    }
}

#[test]
fn boundary_turns_a_failure_into_a_plain_500() {
    let r = handle_with_errors(handle_outcome(LookupOutcome::Failed("db down".to_owned())));
    assert_eq!(r.status, 500);
    assert_eq!(r.body, "Internal Server Error");
    assert_eq!(r.content_type.as_deref(), Some("text/plain"));
}

#[test]
fn boundary_passes_a_response_through_unchanged() {
    let ok = handle_outcome(LookupOutcome::Found("hello".to_owned()));
    let body = ok.as_ref().unwrap().body.clone();
    let status = ok.as_ref().unwrap().status;
    let r = handle_with_errors(ok);
    assert_eq!(r.status, status);
    assert_eq!(r.body, body);
}

#[test]
fn repeating_a_get_yields_an_identical_answer() {
    let first = handle_with_errors(handle_outcome(LookupOutcome::Found("hello".to_owned())));
    let second = handle_with_errors(handle_outcome(LookupOutcome::Found("hello".to_owned())));
    assert_eq!(first.status, second.status);
    assert_eq!(first.body, second.body);
    assert_eq!(first.content_type, second.content_type);
    assert_eq!(first.etag, second.etag);
}
