use header_augmenting_filter::config::{
    accept_expiry, requested_fields, FilterConfig, AUTHORITY_FIELD, CLUSTER_FIELD, EXPIRY_FIELD,
    PATH_FIELD,
};
use header_augmenting_filter::error::FilterError;
use header_augmenting_filter::interval::Interval;
use header_augmenting_filter::json::{JsonDocument, JsonMember};

fn text_member(name: &str, text: &str) -> JsonMember {
    JsonMember {
        name: name.to_owned(),
        text: Some(text.to_owned()),
        rendered: format!("\"{}\"", text),
    }
}

fn other_member(name: &str, rendered: &str) -> JsonMember {
    JsonMember { name: name.to_owned(), text: None, rendered: rendered.to_owned() }
}

#[test]
fn todo() {
    assert_eq!(2 + 2, 4);
}

#[test]
fn default_config_has_documented_values() {
    let config = FilterConfig::default();
    assert_eq!(config.header_providing_service_cluster, "sidecar");
    assert_eq!(config.header_providing_service_path, "/headers");
    assert_eq!(config.header_providing_service_authority, "sidecar");
    assert_eq!(config.header_cache_expiry, Interval { secs: 360, nanos: 0 });
}

#[test]
fn empty_object_parses_to_defaults() {
    let config = FilterConfig::parse(b"{}").unwrap();
    assert_eq!(config.header_providing_service_cluster, "sidecar");
    assert_eq!(config.header_providing_service_path, "/headers");
    assert_eq!(config.header_providing_service_authority, "sidecar");
    assert_eq!(config.header_cache_expiry, Interval { secs: 360, nanos: 0 });
}

#[test]
fn partial_payload_merges_with_defaults() {
    let config =
        FilterConfig::parse(br#"{"header_providing_service_path": "/v2/headers"}"#).unwrap();
    assert_eq!(config.header_providing_service_cluster, "sidecar");
    assert_eq!(config.header_providing_service_path, "/v2/headers");
    assert_eq!(config.header_providing_service_authority, "sidecar");
    assert_eq!(config.header_cache_expiry, Interval { secs: 360, nanos: 0 });

    let config = FilterConfig::parse(br#"{"header_cache_expiry": "90s"}"#).unwrap();
    assert_eq!(config.header_providing_service_cluster, "sidecar");
    assert_eq!(config.header_providing_service_path, "/headers");
    assert_eq!(config.header_providing_service_authority, "sidecar");
    assert_eq!(config.header_cache_expiry, Interval { secs: 90, nanos: 0 });
}

#[test]
fn full_payload_sets_every_field() {
    let raw = br#"{
        "header_providing_service_cluster": "headers-cluster",
        "header_providing_service_path": "/api/headers",
        "header_providing_service_authority": "headers.internal",
        "header_cache_expiry": "1h 30m"
    }"#;
    let config = FilterConfig::parse(raw).unwrap();
    assert_eq!(config.header_providing_service_cluster, "headers-cluster");
    assert_eq!(config.header_providing_service_path, "/api/headers");
    assert_eq!(config.header_providing_service_authority, "headers.internal");
    assert_eq!(config.header_cache_expiry, Interval { secs: 5400, nanos: 0 });
}

#[test]
fn unknown_fields_are_passed_over() {
    let config = FilterConfig::parse(br#"{"colour": "blue", "retries": 3}"#).unwrap();
    assert_eq!(config.header_providing_service_cluster, "sidecar");
    assert_eq!(config.header_cache_expiry, Interval { secs: 360, nanos: 0 });
}

#[test]
fn wrong_typed_field_is_malformed() {
    for raw in [
        &br#"{"header_providing_service_cluster": 5}"#[..],
        &br#"{"header_providing_service_path": null}"#[..],
        &br#"{"header_providing_service_authority": ["a"]}"#[..],
        &br#"{"header_cache_expiry": 360}"#[..],
        &br#"{"header_providing_service_path": "/ok", "header_cache_expiry": true}"#[..],
    ] {
        assert_eq!(FilterConfig::parse(raw).unwrap_err(), FilterError::ConfigMalformed);
    }
}

#[test]
fn malformed_duration_is_malformed() {
    for raw in [
        &br#"{"header_cache_expiry": "soon"}"#[..],
        &br#"{"header_cache_expiry": ""}"#[..],
        &br#"{"header_cache_expiry": "360"}"#[..],
        &br#"{"header_cache_expiry": "5 fortnights"}"#[..],
        &br#"{"header_cache_expiry": "99999999999999999999s"}"#[..],
    ] {
        assert_eq!(FilterConfig::parse(raw).unwrap_err(), FilterError::ConfigMalformed);
    }
}

#[test]
fn zero_expiry_is_malformed() {
    assert_eq!(
        FilterConfig::parse(br#"{"header_cache_expiry": "0s"}"#).unwrap_err(),
        FilterError::ConfigMalformed
    );
    assert_eq!(
        FilterConfig::parse(br#"{"header_cache_expiry": "0"}"#).unwrap_err(),
        FilterError::ConfigMalformed
    );
}

#[test]
fn payload_that_is_no_object_is_malformed() {
    for raw in [&b"[]"[..], &b"\"sidecar\""[..], &b"42"[..], &b"null"[..], &b"{"[..], &b"{} x"[..]]
    {
        assert_eq!(FilterConfig::parse(raw).unwrap_err(), FilterError::ConfigMalformed);
    }
}

#[test]
fn accept_expiry_wants_a_proper_span_of_some_time() {
    assert_eq!(
        accept_expiry(Some(Interval { secs: 7, nanos: 5 })),
        Ok(Interval { secs: 7, nanos: 5 })
    );
    assert_eq!(
        accept_expiry(Some(Interval { secs: 0, nanos: 1 })),
        Ok(Interval { secs: 0, nanos: 1 })
    );
    assert_eq!(accept_expiry(None), Err(FilterError::ConfigMalformed));
    assert_eq!(
        accept_expiry(Some(Interval { secs: 0, nanos: 0 })),
        Err(FilterError::ConfigMalformed)
    );
    assert_eq!(
        accept_expiry(Some(Interval { secs: 1, nanos: 1_000_000_000 })),
        Err(FilterError::ConfigMalformed)
    );
}

#[test]
fn requested_fields_picks_known_text_fields() {
    let doc = JsonDocument::Object(vec![
        text_member(AUTHORITY_FIELD, "a.example"),
        text_member(EXPIRY_FIELD, "10m"),
        other_member("unrelated", "[1,2]"),
    ]);
    let fields = requested_fields(&doc).unwrap();
    assert_eq!(fields.cluster, None);
    assert_eq!(fields.path, None);
    assert_eq!(fields.authority.as_deref(), Some("a.example"));
    assert_eq!(fields.expiry.as_deref(), Some("10m"));
}

#[test]
fn requested_fields_takes_the_last_member_of_a_name() {
    let doc = JsonDocument::Object(vec![
        text_member(CLUSTER_FIELD, "first"),
        text_member(CLUSTER_FIELD, "second"),
    ]);
    assert_eq!(requested_fields(&doc).unwrap().cluster.as_deref(), Some("second"));

    let doc = JsonDocument::Object(vec![
        text_member(PATH_FIELD, "/fine"),
        other_member(PATH_FIELD, "7"),
    ]);
    assert_eq!(requested_fields(&doc).unwrap_err(), FilterError::ConfigMalformed);
}

#[test]
fn requested_fields_refuses_what_is_no_object() {
    assert_eq!(
        requested_fields(&JsonDocument::NotAnObject).unwrap_err(),
        FilterError::ConfigMalformed
    );
    assert_eq!(
        requested_fields(&JsonDocument::Malformed).unwrap_err(),
        FilterError::ConfigMalformed
    );
}

#[test]
fn overlay_keeps_what_is_not_given() {
    let config = FilterConfig::default().overlay(
        None,
        Some("/other".to_owned()),
        None,
        Some(Interval { secs: 12, nanos: 0 }),
    );
    assert_eq!(config.header_providing_service_cluster, "sidecar");
    assert_eq!(config.header_providing_service_path, "/other");
    assert_eq!(config.header_providing_service_authority, "sidecar");
    assert_eq!(config.header_cache_expiry, Interval { secs: 12, nanos: 0 });
}

#[test]
fn from_document_resolves_over_defaults() {
    let doc = JsonDocument::Object(vec![
        text_member(CLUSTER_FIELD, "edge"),
        text_member(EXPIRY_FIELD, "2m"),
    ]);
    let config = FilterConfig::from_document(&doc).unwrap();
    assert_eq!(config.header_providing_service_cluster, "edge");
    assert_eq!(config.header_providing_service_path, "/headers");
    assert_eq!(config.header_cache_expiry, Interval { secs: 120, nanos: 0 });

    let doc = JsonDocument::Object(vec![text_member(EXPIRY_FIELD, "two minutes")]);
    assert_eq!(FilterConfig::from_document(&doc).unwrap_err(), FilterError::ConfigMalformed);
}
