use rubygem_api::Error;
use rubygem_api::GemDevDeps;
use rubygem_api::GemRunDeps;
use rubygem_api::HttpIssue;
use rubygem_api::SyncClient;

const RUBY_JSON_BODY: &str = r#"{
  "name": "ruby-json",
  "authors": "Example Author",
  "version": "1.1.4",
  "info": "A JSON implementation in Ruby.",
  "licenses": ["MIT"],
  "project_uri": "https://rubygems.org/gems/ruby-json",
  "gem_uri": "https://rubygems.org/gems/ruby-json-1.1.4.gem",
  "homepage_uri": "https://example.org/ruby-json",
  "wiki_uri": null,
  "documentation_uri": null,
  "sha": "2b27b7dbb2dd2c0502dd6fd5a169d32b4d7e91a6e5f2bc0bbac1280ec8e7e4b0",
  "dependencies": {
    "development": [],
    "runtime": []
  }
}"#;

const FFI_BODY: &str = r#"{
  "name": "ffi",
  "authors": "Wayne Meissner",
  "version": "1.16.3",
  "info": "Ruby FFI library",
  "licenses": ["BSD-3-Clause"],
  "project_uri": "https://rubygems.org/gems/ffi",
  "gem_uri": "https://rubygems.org/gems/ffi-1.16.3.gem",
  "homepage_uri": "https://github.com/ffi/ffi/wiki",
  "wiki_uri": "https://github.com/ffi/ffi/wiki",
  "documentation_uri": "https://github.com/ffi/ffi/wiki",
  "sha": "6d3242ff10c87271b0675c58d68d3f10148fabc2ad6da52a18123f06078871fb",
  "dependencies": {
    "development": [
      {"name": "rake", "requirements": "~> 13.0"},
      {"name": "rake-compiler", "requirements": "~> 1.1"}
    ],
    "runtime": [
      {"name": "rb-inotify", "requirements": ">= 0.9.10"}
    ]
  }
}"#;

#[test]
fn ruby_json_request_url() {
    let client = SyncClient::new();
    let url = client.gem_info_url("ruby-json").unwrap();
    assert_eq!(url, "https://rubygems.org/api/v1/gems/ruby-json.json");
    assert!(url::Url::parse(&url).is_ok());
}

#[test]
fn ruby_json_success_scenario() {
    let client = SyncClient::new();
    let gem_info = client.gem_info_response(200, RUBY_JSON_BODY).unwrap();
    assert_eq!(gem_info.name, "ruby-json");
    assert!(gem_info.name.len() > 0);
    assert!(
        gem_info.version.len() > 0
            && gem_info.version.chars().all(|c| c.is_ascii_digit() || c == '.')
    );
    assert!(gem_info.project_uri.len() > 0);
    assert!(gem_info.gem_uri.len() > 0);
    assert!(url::Url::parse(&gem_info.project_uri).is_ok());
    assert!(url::Url::parse(&gem_info.gem_uri).is_ok());
    assert_eq!(gem_info.authors, "Example Author");
    assert_eq!(gem_info.info.as_deref(), Some("A JSON implementation in Ruby."));
    assert_eq!(gem_info.licenses, Some(vec!["MIT".to_string()]));
    assert_eq!(gem_info.homepage_uri.as_deref(), Some("https://example.org/ruby-json"));
    assert_eq!(gem_info.wiki_uri, None);
    assert_eq!(gem_info.documentation_uri, None);
    assert_eq!(
        gem_info.sha,
        "2b27b7dbb2dd2c0502dd6fd5a169d32b4d7e91a6e5f2bc0bbac1280ec8e7e4b0"
    );
    // An empty list the server did send stays an empty list, not `None`.
    assert_eq!(gem_info.dependencies.development, Some(Vec::<GemDevDeps>::new()));
    assert_eq!(gem_info.dependencies.runtime, Some(Vec::<GemRunDeps>::new()));
}

#[test]
fn development_deps_from_fixture() {
    let client = SyncClient::new();
    let gem_info = client.gem_info_response(200, FFI_BODY).unwrap();
    let dev = gem_info.dependencies.development.unwrap();
    assert!(dev.len() > 0);
    for entry in &dev {
        assert!(entry.name.len() > 0);
        assert!(entry.requirements.len() > 0);
    }
    assert_eq!(dev[0].name, "rake");
    assert_eq!(dev[0].requirements, "~> 13.0");
    assert_eq!(dev[1].name, "rake-compiler");
    let run = gem_info.dependencies.runtime.unwrap();
    assert_eq!(run.len(), 1);
    assert_eq!(run[0].name, "rb-inotify");
    assert_eq!(run[0].requirements, ">= 0.9.10");
}

#[test]
fn repeated_interpretation_is_identical() {
    let client = SyncClient::new();
    let first = client.gem_info_response(200, FFI_BODY).unwrap();
    let second = client.gem_info_response(200, FFI_BODY).unwrap();
    assert_eq!(first, second);
}

#[test]
fn not_found_status_is_not_found_error() {
    let client = SyncClient::new();
    let err = client.gem_info_response(404, "").unwrap_err();
    assert_eq!(err, Error::NotFound);
}

#[test]
fn other_error_statuses_carry_their_code() {
    let client = SyncClient::new();
    assert_eq!(
        client.gem_info_response(500, "").unwrap_err(),
        Error::Http(HttpIssue::Status(500))
    );
    assert_eq!(
        client.gem_info_response(301, "").unwrap_err(),
        Error::Http(HttpIssue::Status(301))
    );
    assert_eq!(
        client.gem_info_response(403, "").unwrap_err(),
        Error::Http(HttpIssue::Status(403))
    );
}
