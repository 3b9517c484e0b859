use rubygem_api::Error;
use rubygem_api::HttpIssue;
use rubygem_api::SyncClient;

#[test]
fn body_that_is_not_json_is_a_syntax_error() {
    let client = SyncClient::new();
    let err = client.gem_info_response(200, "{ this is not json").unwrap_err();
    assert_eq!(err, Error::Http(HttpIssue::BodySyntax));
}

#[test]
fn missing_required_field_is_a_shape_error() {
    let client = SyncClient::new();
    // A record without its required `sha` field.
    let body = r#"{
      "name": "x", "authors": "a", "version": "1.0.0",
      "project_uri": "https://example.org/x",
      "gem_uri": "https://example.org/x.gem",
      "dependencies": {}
    }"#;
    let err = client.gem_info_response(200, body).unwrap_err();
    assert_eq!(err, Error::Http(HttpIssue::BodyShape));
}

#[test]
fn mistyped_required_field_is_a_shape_error() {
    let client = SyncClient::new();
    // `name` must be a string, not a number.
    let body = r#"{
      "name": 5, "authors": "a", "version": "1.0.0",
      "project_uri": "https://example.org/x",
      "gem_uri": "https://example.org/x.gem",
      "sha": "s", "dependencies": {}
    }"#;
    let err = client.gem_info_response(200, body).unwrap_err();
    assert_eq!(err, Error::Http(HttpIssue::BodyShape));
}

#[test]
fn mistyped_dependency_entry_is_a_shape_error() {
    let client = SyncClient::new();
    let body = r#"{
      "name": "x", "authors": "a", "version": "1.0.0",
      "project_uri": "https://example.org/x",
      "gem_uri": "https://example.org/x.gem",
      "sha": "s",
      "dependencies": {"development": [{"name": "y"}]}
    }"#;
    let err = client.gem_info_response(200, body).unwrap_err();
    assert_eq!(err, Error::Http(HttpIssue::BodyShape));
}

#[test]
fn top_level_non_object_is_a_shape_error() {
    let client = SyncClient::new();
    let err = client.gem_info_response(200, "[1, 2, 3]").unwrap_err();
    assert_eq!(err, Error::Http(HttpIssue::BodyShape));
}

#[test]
fn absent_and_null_optional_fields_stay_absent() {
    let client = SyncClient::new();
    // `licenses` is null, `info` and the uri fields are absent, and both
    // dependency lists are absent.
    let body = r#"{
      "name": "bare", "authors": "a", "version": "0.1.0",
      "licenses": null,
      "project_uri": "https://example.org/bare",
      "gem_uri": "https://example.org/bare.gem",
      "sha": "s",
      "dependencies": {}
    }"#;
    let gem_info = client.gem_info_response(200, body).unwrap();
    assert_eq!(gem_info.licenses, None);
    assert_eq!(gem_info.info, None);
    assert_eq!(gem_info.homepage_uri, None);
    assert_eq!(gem_info.wiki_uri, None);
    assert_eq!(gem_info.documentation_uri, None);
    assert_eq!(gem_info.dependencies.development, None);
    assert_eq!(gem_info.dependencies.runtime, None);
}

#[test]
fn licenses_from_fixture() {
    let client = SyncClient::new();
    let body = r#"{
      "name": "newrelic_rpm", "authors": "New Relic", "version": "9.0.0",
      "licenses": ["Apache-2.0"],
      "project_uri": "https://rubygems.org/gems/newrelic_rpm",
      "gem_uri": "https://rubygems.org/gems/newrelic_rpm-9.0.0.gem",
      "sha": "s",
      "dependencies": {"runtime": []}
    }"#;
    let gem_info = client.gem_info_response(200, body).unwrap();
    println!("{:?}", gem_info.licenses);
    assert_eq!(gem_info.licenses, Some(vec!["Apache-2.0".to_string()]));
}
