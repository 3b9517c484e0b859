use vstd::prelude::*;

use crate::client::Error;
use crate::client::HttpIssue;
use crate::client::gem_response_spec;
use crate::client::gem_url_spec;
use crate::client::is_success_status;
use crate::client::request_target;
use crate::data::GemInfo;
use crate::decode::dep_arr_val;
use crate::decode::dep_entry_of;
use crate::decode::gem_json_ok;
use crate::decode::gem_of;
use crate::decode::obj_lookup;
use crate::decode::req_str_val;
use crate::decode::str_arr_val;
use crate::json::JsonValue;
use crate::json::json_of;

verus! {

/// Idempotence of URL construction: two results of building the request URL
/// for the same base URL and the same package name are the same URL, or the
/// same error.
pub proof fn lemma_gem_info_url_idempotent(
    base: Seq<char>,
    name: Seq<char>,
    r1: Result<String, Error>,
    r2: Result<String, Error>,
)
    requires
        gem_url_spec(base, name, r1),
        gem_url_spec(base, name, r2),
    ensures
        r1 is Ok <==> r2 is Ok,
        r1 matches Ok(a) ==> r2 matches Ok(b) ==> a@ == b@,
        r1 matches Err(a) ==> r2 matches Err(b) ==> a == b,
{
}

/// Idempotence of response interpretation: two results of interpreting the
/// same status code and the same body are field-for-field identical records,
/// or the same error. With an unchanged upstream answer, repeated queries
/// for one package name therefore agree.
pub proof fn lemma_gem_info_response_idempotent(
    status: u16,
    body: Seq<char>,
    r1: Result<GemInfo, Error>,
    r2: Result<GemInfo, Error>,
)
    requires
        gem_response_spec(status, body, r1),
        gem_response_spec(status, body, r2),
    ensures
        r1 is Ok <==> r2 is Ok,
        r1 matches Ok(a) ==> r2 matches Ok(b) ==> a@ == b@,
        r1 matches Err(a) ==> r2 matches Err(b) ==> a == b,
{
}

/// A package the registry does not know, and only such a package, is
/// reported as `NotFound`: the interpretation of a response is `NotFound`
/// exactly where the status is 404, and no other error kind is used there.
pub proof fn lemma_not_found_iff_404(status: u16, body: Seq<char>, r: Result<GemInfo, Error>)
    requires
        gem_response_spec(status, body, r),
    ensures
        (r matches Err(e) && e is NotFound) <==> status == 404,
{
}

/// A name that does not join into a valid request URL yields the `Url`
/// error, never an `Http`-class error, and a name that joins never yields an
/// error from URL construction.
pub proof fn lemma_bad_name_is_url_error(
    base: Seq<char>,
    name: Seq<char>,
    r: Result<String, Error>,
)
    requires
        gem_url_spec(base, name, r),
    ensures
        r is Err <==> request_target(base, name) is None,
        r matches Err(e) ==> e is Url,
{
}

/// A malformed body under a success status yields an `Http`-class decode
/// error — a syntax error where the body is not JSON, a shape error where it
/// is JSON of the wrong shape — and never a record: no partially-populated
/// result exists.
pub proof fn lemma_malformed_body_is_http_error(
    status: u16,
    body: Seq<char>,
    r: Result<GemInfo, Error>,
)
    requires
        gem_response_spec(status, body, r),
        is_success_status(status),
        status != 404,
        !(json_of(body) matches Some(v) && gem_json_ok(v)),
    ensures
        r matches Err(e) && e matches Error::Http(i) && (i is BodySyntax || i is BodyShape),
        json_of(body) is None ==> (r matches Err(e) && e matches Error::Http(i)
            && i is BodySyntax),
        json_of(body) is Some ==> (r matches Err(e) && e matches Error::Http(i) && i is BodyShape),
{
}

/// Decoding preserves the optional fields' absence: the record's `licenses`
/// and each dependency list are `None` exactly where the server omitted the
/// field or sent null — never coerced to an empty list — and where present
/// they hold the server's entries, in order, field for field.
pub proof fn lemma_optional_fields_preserved(v: JsonValue)
    requires
        gem_json_ok(v),
    ensures
        gem_of(v).name == req_str_val(v->Obj_0@, "name"@),
        (gem_of(v).licenses is None <==> match obj_lookup(v->Obj_0@, "licenses"@) {
            None => true,
            Some(l) => l is Null,
        }),
        gem_of(v).licenses matches Some(ls) ==> obj_lookup(v->Obj_0@, "licenses"@) matches Some(a)
            && ls == str_arr_val(a),
        (gem_of(v).dependencies.development is None <==> match obj_lookup(
            deps_json(v)->Obj_0@,
            "development"@,
        ) {
            None => true,
            Some(l) => l is Null,
        }),
        gem_of(v).dependencies.development matches Some(ds) ==> obj_lookup(
            deps_json(v)->Obj_0@,
            "development"@,
        ) matches Some(a) && ds == dep_arr_val(a) && ds.len() == a->Arr_0@.len() && (forall|i: int|
            0 <= i < ds.len() ==> ds[i] == dep_entry_of(a->Arr_0@[i])),
        (gem_of(v).dependencies.runtime is None <==> match obj_lookup(
            deps_json(v)->Obj_0@,
            "runtime"@,
        ) {
            None => true,
            Some(l) => l is Null,
        }),
        gem_of(v).dependencies.runtime matches Some(ds) ==> obj_lookup(
            deps_json(v)->Obj_0@,
            "runtime"@,
        ) matches Some(a) && ds == dep_arr_val(a) && ds.len() == a->Arr_0@.len() && (forall|i: int|
            0 <= i < ds.len() ==> ds[i] == dep_entry_of(a->Arr_0@[i])),
{
}

/// The `dependencies` member of a gem-metadata document: the JSON object the
/// record's dependency lists are decoded from.
pub open spec fn deps_json(v: JsonValue) -> JsonValue {
    obj_lookup(v->Obj_0@, "dependencies"@)->Some_0
}

} // verus!
