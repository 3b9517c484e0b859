use vstd::prelude::*;

use crate::data::DepEntryView;
use crate::data::GemDeps;
use crate::data::GemDepsView;
use crate::data::GemDevDeps;
use crate::data::GemInfo;
use crate::data::GemInfoView;
use crate::data::GemRunDeps;
use crate::json::JsonValue;
use vstd::string::StringExecFns;

verus! {

/// The value stored under `key` in a JSON object's field list: the first
/// binding whose key matches, or `None` where the key is absent.
pub open spec fn obj_lookup(fields: Seq<(String, JsonValue)>, key: Seq<char>) -> Option<JsonValue>
    decreases fields.len(),
{
    if fields.len() == 0 {
        None
    } else if fields[0].0@ == key {
        Some(fields[0].1)
    } else {
        obj_lookup(fields.drop_first(), key)
    }
}

/// Looks up `key` in a decoded JSON object's field list.
pub fn get_field<'a>(fields: &'a Vec<(String, JsonValue)>, key: &String) -> (r: Option<
    &'a JsonValue,
>)
    ensures
        match obj_lookup(fields@, key@) {
            Some(v) => r matches Some(f) && *f == v,
            None => r is None,
        },
{
    proof {
        assert(fields@.skip(0) =~= fields@);
    }
    let mut i: usize = 0;
    while i < fields.len()
        invariant
            0 <= i <= fields@.len(),
            obj_lookup(fields@, key@) == obj_lookup(fields@.skip(i as int), key@),
        decreases fields@.len() - i,
    {
        proof {
            assert(fields@.skip(i as int)[0] == fields@[i as int]);
        }
        if fields[i].0 == *key {
            return Some(&fields[i].1);
        }
        proof {
            assert(fields@.skip(i as int).drop_first() =~= fields@.skip(i as int + 1));
        }
        i += 1;
    }
    proof {
        assert(fields@.skip(i as int).len() == 0);
    }
    None
}

/// The object binds `key` to a JSON string: the shape of a required string
/// field.
pub open spec fn req_str_ok(fields: Seq<(String, JsonValue)>, key: Seq<char>) -> bool {
    obj_lookup(fields, key) matches Some(v) && v is Str
}

/// The characters of the required string field `key`; meaningful only where
/// `req_str_ok` holds.
pub open spec fn req_str_val(fields: Seq<(String, JsonValue)>, key: Seq<char>) -> Seq<char> {
    obj_lookup(fields, key)->Some_0->Str_0@
}

/// Extracts a required string field: `None` where the key is absent or its
/// value is not a string.
pub fn get_req_str(fields: &Vec<(String, JsonValue)>, key: &String) -> (r: Option<String>)
    ensures
        r is Some <==> req_str_ok(fields@, key@),
        r matches Some(s) ==> s@ == req_str_val(fields@, key@),
{
    match get_field(fields, key) {
        Some(JsonValue::Str(s)) => Some(s.clone()),
        _ => None,
    }
}

/// The object either omits `key` or binds it to null or a JSON string: the
/// shape of an optional string field.
pub open spec fn opt_str_ok(fields: Seq<(String, JsonValue)>, key: Seq<char>) -> bool {
    match obj_lookup(fields, key) {
        Some(v) => v is Null || v is Str,
        None => true,
    }
}

/// The characters of the optional string field `key`, or `None` where the
/// field is absent or null; meaningful only where `opt_str_ok` holds.
pub open spec fn opt_str_val(fields: Seq<(String, JsonValue)>, key: Seq<char>) -> Option<
    Seq<char>,
> {
    match obj_lookup(fields, key) {
        Some(v) => if v is Str {
            Some(v->Str_0@)
        } else {
            None
        },
        None => None,
    }
}

/// Extracts an optional string field: the outer `None` reports a shape
/// violation (present, but neither null nor a string), the inner `None` an
/// absent or null field.
pub fn get_opt_str(fields: &Vec<(String, JsonValue)>, key: &String) -> (r: Option<Option<String>>)
    ensures
        r is Some <==> opt_str_ok(fields@, key@),
        r matches Some(o) ==> o.deep_view() == opt_str_val(fields@, key@),
{
    match get_field(fields, key) {
        None => Some(None),
        Some(JsonValue::Null) => Some(None),
        Some(JsonValue::Str(s)) => Some(Some(s.clone())),
        Some(_) => None,
    }
}

/// The value is a JSON array whose elements are all strings.
pub open spec fn str_arr_ok(v: JsonValue) -> bool {
    v matches JsonValue::Arr(items) && forall|i: int|
        0 <= i < items@.len() ==> items@[i] is Str
}

/// The character sequences of a JSON array of strings, in order; meaningful
/// only where `str_arr_ok` holds.
pub open spec fn str_arr_val(v: JsonValue) -> Seq<Seq<char>> {
    v->Arr_0@.map_values(|x: JsonValue| x->Str_0@)
}

/// Decodes a JSON array of strings: `None` where the value is not an array
/// or some element is not a string.
pub fn decode_str_arr(v: &JsonValue) -> (r: Option<Vec<String>>)
    ensures
        r is Some <==> str_arr_ok(*v),
        r matches Some(ss) ==> ss.deep_view() == str_arr_val(*v),
{
    match v {
        JsonValue::Arr(items) => {
            let mut out: Vec<String> = Vec::new();
            let mut i: usize = 0;
            while i < items.len()
                invariant
                    *v == JsonValue::Arr(*items),
                    0 <= i <= items@.len(),
                    out@.len() == i,
                    forall|j: int| 0 <= j < i ==> items@[j] is Str,
                    forall|j: int| 0 <= j < i ==> out@[j]@ == items@[j]->Str_0@,
                decreases items@.len() - i,
            {
                match &items[i] {
                    JsonValue::Str(s) => {
                        out.push(s.clone());
                    },
                    _ => {
                        proof {
                            assert(!str_arr_ok(*v)) by {
                                assert(*v == JsonValue::Arr(*items));
                                assert(v->Arr_0@[i as int] !is Str);
                            }
                        }
                        return None;
                    },
                }
                i += 1;
            }
            proof {
                assert(out.deep_view() =~= str_arr_val(*v));
            }
            Some(out)
        },
        _ => None,
    }
}

/// The object either omits `key` or binds it to null or an array of
/// strings: the shape of an optional license list.
pub open spec fn opt_str_arr_ok(fields: Seq<(String, JsonValue)>, key: Seq<char>) -> bool {
    match obj_lookup(fields, key) {
        Some(v) => v is Null || str_arr_ok(v),
        None => true,
    }
}

/// The strings of the optional array field `key`, or `None` where the field
/// is absent or null; meaningful only where `opt_str_arr_ok` holds.
pub open spec fn opt_str_arr_val(fields: Seq<(String, JsonValue)>, key: Seq<char>) -> Option<
    Seq<Seq<char>>,
> {
    match obj_lookup(fields, key) {
        Some(v) => if v is Null {
            None
        } else {
            Some(str_arr_val(v))
        },
        None => None,
    }
}

/// Extracts an optional array-of-strings field: the outer `None` reports a
/// shape violation, the inner `None` an absent or null field.
pub fn get_opt_str_arr(fields: &Vec<(String, JsonValue)>, key: &String) -> (r: Option<
    Option<Vec<String>>,
>)
    ensures
        r is Some <==> opt_str_arr_ok(fields@, key@),
        r matches Some(o) ==> o.deep_view() == opt_str_arr_val(fields@, key@),
{
    match get_field(fields, key) {
        None => Some(None),
        Some(JsonValue::Null) => Some(None),
        Some(other) => match decode_str_arr(other) {
            Some(ss) => Some(Some(ss)),
            None => None,
        },
    }
}

/// The value is a JSON object with required string fields `name` and
/// `requirements`: the shape of one dependency entry.
pub open spec fn dep_entry_ok(v: JsonValue) -> bool {
    v matches JsonValue::Obj(fields) && req_str_ok(fields@, "name"@) && req_str_ok(
        fields@,
        "requirements"@,
    )
}

/// The name and version requirement of one dependency entry; meaningful only
/// where `dep_entry_ok` holds.
pub open spec fn dep_entry_of(v: JsonValue) -> DepEntryView {
    DepEntryView {
        name: req_str_val(v->Obj_0@, "name"@),
        requirements: req_str_val(v->Obj_0@, "requirements"@),
    }
}

/// Decodes one dependency entry into its name and requirements strings.
pub fn decode_dep_entry(v: &JsonValue) -> (r: Option<(String, String)>)
    ensures
        r is Some <==> dep_entry_ok(*v),
        r matches Some(p) ==> p.0@ == dep_entry_of(*v).name && p.1@ == dep_entry_of(
            *v,
        ).requirements,
{
    match v {
        JsonValue::Obj(fields) => {
            let key_name = String::from_str("name");
            let key_req = String::from_str("requirements");
            match (get_req_str(fields, &key_name), get_req_str(fields, &key_req)) {
                (Some(n), Some(q)) => Some((n, q)),
                _ => None,
            }
        },
        _ => None,
    }
}

/// The value is a JSON array whose elements are all dependency entries.
pub open spec fn dep_arr_ok(v: JsonValue) -> bool {
    v matches JsonValue::Arr(items) && forall|i: int|
        0 <= i < items@.len() ==> dep_entry_ok(items@[i])
}

/// The dependency entries of a JSON array, in server-provided order;
/// meaningful only where `dep_arr_ok` holds.
pub open spec fn dep_arr_val(v: JsonValue) -> Seq<DepEntryView> {
    v->Arr_0@.map_values(|x: JsonValue| dep_entry_of(x))
}

/// Decodes an array of development-dependency entries, keeping their order.
pub fn decode_dev_list(v: &JsonValue) -> (r: Option<Vec<GemDevDeps>>)
    ensures
        r is Some <==> dep_arr_ok(*v),
        r matches Some(ds) ==> ds.deep_view() == dep_arr_val(*v),
{
    match v {
        JsonValue::Arr(items) => {
            let mut out: Vec<GemDevDeps> = Vec::new();
            let mut i: usize = 0;
            while i < items.len()
                invariant
                    *v == JsonValue::Arr(*items),
                    0 <= i <= items@.len(),
                    out@.len() == i,
                    forall|j: int| 0 <= j < i ==> dep_entry_ok(items@[j]),
                    forall|j: int| 0 <= j < i ==> out@[j]@ == dep_entry_of(items@[j]),
                decreases items@.len() - i,
            {
                match decode_dep_entry(&items[i]) {
                    Some(p) => {
                        out.push(GemDevDeps { name: p.0, requirements: p.1 });
                    },
                    None => {
                        proof {
                            assert(!dep_arr_ok(*v)) by {
                                assert(!dep_entry_ok(v->Arr_0@[i as int]));
                            }
                        }
                        return None;
                    },
                }
                i += 1;
            }
            proof {
                assert(out.deep_view() =~= dep_arr_val(*v));
            }
            Some(out)
        },
        _ => None,
    }
}

/// Decodes an array of runtime-dependency entries, keeping their order.
pub fn decode_run_list(v: &JsonValue) -> (r: Option<Vec<GemRunDeps>>)
    ensures
        r is Some <==> dep_arr_ok(*v),
        r matches Some(ds) ==> ds.deep_view() == dep_arr_val(*v),
{
    match v {
        JsonValue::Arr(items) => {
            let mut out: Vec<GemRunDeps> = Vec::new();
            let mut i: usize = 0;
            while i < items.len()
                invariant
                    *v == JsonValue::Arr(*items),
                    0 <= i <= items@.len(),
                    out@.len() == i,
                    forall|j: int| 0 <= j < i ==> dep_entry_ok(items@[j]),
                    forall|j: int| 0 <= j < i ==> out@[j]@ == dep_entry_of(items@[j]),
                decreases items@.len() - i,
            {
                match decode_dep_entry(&items[i]) {
                    Some(p) => {
                        out.push(GemRunDeps { name: p.0, requirements: p.1 });
                    },
                    None => {
                        proof {
                            assert(!dep_arr_ok(*v)) by {
                                assert(!dep_entry_ok(v->Arr_0@[i as int]));
                            }
                        }
                        return None;
                    },
                }
                i += 1;
            }
            proof {
                assert(out.deep_view() =~= dep_arr_val(*v));
            }
            Some(out)
        },
        _ => None,
    }
}

/// The object either omits `key` or binds it to null or an array of
/// dependency entries: the shape of an optional dependency list.
pub open spec fn opt_dep_arr_ok(fields: Seq<(String, JsonValue)>, key: Seq<char>) -> bool {
    match obj_lookup(fields, key) {
        Some(v) => v is Null || dep_arr_ok(v),
        None => true,
    }
}

/// The entries of the optional dependency-list field `key`, or `None` where
/// the field is absent or null; meaningful only where `opt_dep_arr_ok`
/// holds.
pub open spec fn opt_dep_arr_val(fields: Seq<(String, JsonValue)>, key: Seq<char>) -> Option<
    Seq<DepEntryView>,
> {
    match obj_lookup(fields, key) {
        Some(v) => if v is Null {
            None
        } else {
            Some(dep_arr_val(v))
        },
        None => None,
    }
}

/// The value is a JSON object whose `development` and `runtime` fields, where
/// present and non-null, are arrays of dependency entries: the shape of the
/// `dependencies` member of a gem record.
pub open spec fn deps_ok(v: JsonValue) -> bool {
    v matches JsonValue::Obj(fields) && opt_dep_arr_ok(fields@, "development"@) && opt_dep_arr_ok(
        fields@,
        "runtime"@,
    )
}

/// The two dependency lists of a `dependencies` object; meaningful only
/// where `deps_ok` holds.
pub open spec fn deps_of(v: JsonValue) -> GemDepsView {
    GemDepsView {
        development: opt_dep_arr_val(v->Obj_0@, "development"@),
        runtime: opt_dep_arr_val(v->Obj_0@, "runtime"@),
    }
}

/// Decodes the `dependencies` object of a gem record: both lists are
/// optional, and an absent or null list stays `None`.
pub fn decode_deps(v: &JsonValue) -> (r: Option<GemDeps>)
    ensures
        r is Some <==> deps_ok(*v),
        r matches Some(d) ==> d@ == deps_of(*v),
{
    match v {
        JsonValue::Obj(fields) => {
            let key_dev = String::from_str("development");
            let key_run = String::from_str("runtime");
            let development: Option<Vec<GemDevDeps>> = match get_field(fields, &key_dev) {
                None => None,
                Some(JsonValue::Null) => None,
                Some(other) => match decode_dev_list(other) {
                    Some(ds) => Some(ds),
                    None => {
                        return None;
                    },
                },
            };
            let runtime: Option<Vec<GemRunDeps>> = match get_field(fields, &key_run) {
                None => None,
                Some(JsonValue::Null) => None,
                Some(other) => match decode_run_list(other) {
                    Some(ds) => Some(ds),
                    None => {
                        return None;
                    },
                },
            };
            Some(GemDeps { development, runtime })
        },
        _ => None,
    }
}

/// The value is a JSON object of the gem-metadata shape: `name`, `authors`,
/// `version`, `project_uri`, `gem_uri` and `sha` are required strings;
/// `info`, `homepage_uri`, `wiki_uri` and `documentation_uri` are optional
/// strings; `licenses` is an optional array of strings; `dependencies` is a
/// required object of two optional dependency lists.
pub open spec fn gem_json_ok(v: JsonValue) -> bool {
    &&& v matches JsonValue::Obj(fields)
    &&& req_str_ok(fields@, "name"@)
    &&& req_str_ok(fields@, "authors"@)
    &&& req_str_ok(fields@, "version"@)
    &&& opt_str_ok(fields@, "info"@)
    &&& opt_str_arr_ok(fields@, "licenses"@)
    &&& req_str_ok(fields@, "project_uri"@)
    &&& req_str_ok(fields@, "gem_uri"@)
    &&& opt_str_ok(fields@, "homepage_uri"@)
    &&& opt_str_ok(fields@, "wiki_uri"@)
    &&& opt_str_ok(fields@, "documentation_uri"@)
    &&& obj_lookup(fields@, "dependencies"@) matches Some(d) && deps_ok(d)
    &&& req_str_ok(fields@, "sha"@)
}

/// The record denoted by a gem-metadata JSON object, field for field;
/// meaningful only where `gem_json_ok` holds.
pub open spec fn gem_of(v: JsonValue) -> GemInfoView {
    let fields = v->Obj_0@;
    GemInfoView {
        name: req_str_val(fields, "name"@),
        authors: req_str_val(fields, "authors"@),
        version: req_str_val(fields, "version"@),
        info: opt_str_val(fields, "info"@),
        licenses: opt_str_arr_val(fields, "licenses"@),
        project_uri: req_str_val(fields, "project_uri"@),
        gem_uri: req_str_val(fields, "gem_uri"@),
        homepage_uri: opt_str_val(fields, "homepage_uri"@),
        wiki_uri: opt_str_val(fields, "wiki_uri"@),
        documentation_uri: opt_str_val(fields, "documentation_uri"@),
        dependencies: deps_of(obj_lookup(fields, "dependencies"@)->Some_0),
        sha: req_str_val(fields, "sha"@),
    }
}

/// Decodes a JSON document into a gem record: `Some` exactly where the
/// document has the gem-metadata shape, and then every field of the record
/// is the corresponding field of the document, with absent and null optional
/// fields kept `None`. Decoding never produces a partial record.
pub fn decode_gem(v: &JsonValue) -> (r: Option<GemInfo>)
    ensures
        r is Some <==> gem_json_ok(*v),
        r matches Some(g) ==> g@ == gem_of(*v),
{
    match v {
        JsonValue::Obj(fields) => {
            let name = match get_req_str(fields, &String::from_str("name")) {
                Some(s) => s,
                None => {
                    return None;
                },
            };
            let authors = match get_req_str(fields, &String::from_str("authors")) {
                Some(s) => s,
                None => {
                    return None;
                },
            };
            let version = match get_req_str(fields, &String::from_str("version")) {
                Some(s) => s,
                None => {
                    return None;
                },
            };
            let info = match get_opt_str(fields, &String::from_str("info")) {
                Some(o) => o,
                None => {
                    return None;
                },
            };
            let licenses = match get_opt_str_arr(fields, &String::from_str("licenses")) {
                Some(o) => o,
                None => {
                    return None;
                },
            };
            let project_uri = match get_req_str(fields, &String::from_str("project_uri")) {
                Some(s) => s,
                None => {
                    return None;
                },
            };
            let gem_uri = match get_req_str(fields, &String::from_str("gem_uri")) {
                Some(s) => s,
                None => {
                    return None;
                },
            };
            let homepage_uri = match get_opt_str(fields, &String::from_str("homepage_uri")) {
                Some(o) => o,
                None => {
                    return None;
                },
            };
            let wiki_uri = match get_opt_str(fields, &String::from_str("wiki_uri")) {
                Some(o) => o,
                None => {
                    return None;
                },
            };
            let documentation_uri = match get_opt_str(
                fields,
                &String::from_str("documentation_uri"),
            ) {
                Some(o) => o,
                None => {
                    return None;
                },
            };
            let dependencies = match get_field(fields, &String::from_str("dependencies")) {
                Some(d) => match decode_deps(d) {
                    Some(deps) => deps,
                    None => {
                        return None;
                    },
                },
                None => {
                    return None;
                },
            };
            let sha = match get_req_str(fields, &String::from_str("sha")) {
                Some(s) => s,
                None => {
                    return None;
                },
            };
            let g = GemInfo {
                name,
                authors,
                version,
                info,
                licenses,
                project_uri,
                gem_uri,
                homepage_uri,
                wiki_uri,
                documentation_uri,
                dependencies,
                sha,
            };
            proof {
                assert(g@ =~= gem_of(*v));
            }
            Some(g)
        },
        _ => None,
    }
}

} // verus!
