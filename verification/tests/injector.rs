use header_augmenting_filter::error::FilterError;
use header_augmenting_filter::injector::{
    decide, headers_from_document, on_request_headers, parse_headers, reject, Action,
    RequestOutcome,
};
use header_augmenting_filter::json::{JsonDocument, JsonMember};

fn pair(name: &str, value: &str) -> (String, String) {
    (name.to_owned(), value.to_owned())
}

fn forwarded(outcome: RequestOutcome) -> (Vec<(String, String)>, Option<FilterError>) {
    match outcome {
        RequestOutcome::Forwarded { headers, warning } => (headers, warning),
        other => panic!("not forwarded: {:?}", other),
    }
}

#[test]
fn request_without_cache_is_rejected_with_500() {
    let outcome = on_request_headers(None);
    assert_eq!(outcome.action(), Action::Pause);
    assert_eq!(outcome.failure(), Some(FilterError::CacheNeverPopulated));
    match outcome {
        RequestOutcome::Rejected { response } => {
            assert_eq!(response.status, 500);
            assert_eq!(response.body, "Filter not initialised");
            assert_eq!(response.headers, vec![pair("Powered-By", "header-augmenting-filter")]);
        }
        other => panic!("not rejected: {:?}", other),
    }
}

#[test]
fn reject_is_the_fixed_response() {
    let response = reject();
    assert_eq!(response.status, 500);
    assert_eq!(response.body, "Filter not initialised");
    assert_eq!(response.headers, vec![pair("Powered-By", "header-augmenting-filter")]);
}

#[test]
fn cached_header_is_set_on_the_request() {
    let outcome = on_request_headers(Some(br#"{"X-User":"alice"}"#));
    assert_eq!(outcome.action(), Action::Continue);
    assert_eq!(outcome.failure(), None);
    assert_eq!(forwarded(outcome), (vec![pair("X-User", "alice")], None));
}

#[test]
fn every_cached_header_is_set() {
    let outcome = on_request_headers(Some(
        br#"{"X-User": "alice", "Authorization": "Bearer abc", "X-Tenant": "acme"}"#,
    ));
    assert_eq!(
        forwarded(outcome),
        (
            vec![
                pair("Authorization", "Bearer abc"),
                pair("X-Tenant", "acme"),
                pair("X-User", "alice"),
            ],
            None
        )
    );
}

#[test]
fn values_that_are_no_strings_are_stringified() {
    let headers = parse_headers(
        br#"{"X-Count": 5, "X-Flag": true, "X-List": [1, 2], "X-None": null, "X-Text": "a b"}"#,
    )
    .unwrap();
    assert_eq!(
        headers,
        vec![
            pair("X-Count", "5"),
            pair("X-Flag", "true"),
            pair("X-List", "[1,2]"),
            pair("X-None", "null"),
            pair("X-Text", "a b"),
        ]
    );
}

#[test]
fn empty_object_sets_no_header() {
    assert_eq!(forwarded(on_request_headers(Some(b"{}"))), (vec![], None));
}

#[test]
fn cache_that_is_no_object_forwards_unmodified() {
    for cached in [&b"\"oops\""[..], &b"[\"X-User\"]"[..], &b"12"[..], &b"null"[..]] {
        let outcome = on_request_headers(Some(cached));
        assert_eq!(outcome.action(), Action::Continue);
        assert_eq!(outcome.failure(), Some(FilterError::CacheDecodeFailure));
        assert_eq!(forwarded(outcome), (vec![], Some(FilterError::CacheDecodeFailure)));
    }
}

#[test]
fn cache_that_is_no_json_forwards_unmodified() {
    for cached in [&b""[..], &b"{\"X-User\":"[..], &b"oops"[..], &b"\xff\xfe"[..]] {
        let outcome = on_request_headers(Some(cached));
        assert_eq!(outcome.action(), Action::Continue);
        assert_eq!(forwarded(outcome), (vec![], Some(FilterError::CacheDecodeFailure)));
    }
}

#[test]
fn parse_headers_fails_on_what_is_no_object() {
    assert_eq!(parse_headers(b"\"oops\"").unwrap_err(), FilterError::CacheDecodeFailure);
    assert_eq!(parse_headers(b"{").unwrap_err(), FilterError::CacheDecodeFailure);
}

#[test]
fn headers_from_document_follows_the_members() {
    let doc = JsonDocument::Object(vec![
        JsonMember {
            name: "X-User".to_owned(),
            text: Some("alice".to_owned()),
            rendered: "\"alice\"".to_owned(),
        },
        JsonMember { name: "X-Count".to_owned(), text: None, rendered: "5".to_owned() },
        JsonMember {
            name: "X-User".to_owned(),
            text: Some("bob".to_owned()),
            rendered: "\"bob\"".to_owned(),
        },
    ]);
    assert_eq!(
        headers_from_document(&doc).unwrap(),
        vec![pair("X-User", "alice"), pair("X-Count", "5"), pair("X-User", "bob")]
    );
    assert_eq!(
        headers_from_document(&JsonDocument::NotAnObject).unwrap_err(),
        FilterError::CacheDecodeFailure
    );
    assert_eq!(
        headers_from_document(&JsonDocument::Malformed).unwrap_err(),
        FilterError::CacheDecodeFailure
    );
}

#[test]
fn decide_goes_by_the_decoded_payload() {
    assert_eq!(decide(None).action(), Action::Pause);
    assert_eq!(
        forwarded(decide(Some(&JsonDocument::NotAnObject))),
        (vec![], Some(FilterError::CacheDecodeFailure))
    );
    assert_eq!(forwarded(decide(Some(&JsonDocument::Object(vec![])))), (vec![], None));
}
