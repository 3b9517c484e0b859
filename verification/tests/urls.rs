use rubygem_api::Error;
use rubygem_api::SyncClient;

#[test]
fn url_unsafe_name_is_a_url_error() {
    let client = SyncClient::new();
    // `<name>.json` is resolved as a URL reference; this name turns it into
    // an absolute URL with an unparseable host, which cannot be joined.
    let err = client.gem_info_url("http://[").unwrap_err();
    assert_eq!(err, Error::Url);
}

#[test]
fn plain_names_join_cleanly() {
    let client = SyncClient::new();
    assert_eq!(
        client.gem_info_url("ffi").unwrap(),
        "https://rubygems.org/api/v1/gems/ffi.json"
    );
    assert_eq!(
        client.gem_info_url("rake-compiler").unwrap(),
        "https://rubygems.org/api/v1/gems/rake-compiler.json"
    );
}

#[test]
fn repeated_url_construction_is_identical() {
    let client = SyncClient::new();
    let first = client.gem_info_url("ffi").unwrap();
    let second = client.gem_info_url("ffi").unwrap();
    assert_eq!(first, second);
}

#[test]
fn caller_chosen_base_url_is_used() {
    let client = SyncClient::with_base_url("http://localhost:8080/gems/".to_string());
    assert_eq!(
        client.gem_info_url("ffi").unwrap(),
        "http://localhost:8080/gems/ffi.json"
    );
}
