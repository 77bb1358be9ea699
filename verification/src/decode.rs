//! Decoding: mapping a JSON tree onto the manifest model.
//!
//! The spec functions in this module say exactly which trees decode to which
//! manifests; the executable functions are proved to follow them. A field
//! that is absent falls back to its default; a field that is present with the
//! wrong JSON shape is a parse failure, never a silent default.

use vstd::prelude::*;

use crate::error::Error;
use crate::json::Json;
use crate::json::JsonView;
use crate::json::fields_view;
use crate::json::items_view;
use crate::json::lemma_arr_view;
use crate::json::lemma_obj_view;
use crate::json::lookup;
use crate::json::spec_lookup;
use crate::json::str_eq;
use crate::model::Bug;
use crate::model::BugView;
use crate::model::ManReference;
use crate::model::ManReferenceView;
use crate::model::Package;
use crate::model::PackageView;
use crate::model::Person;
use crate::model::PersonReference;
use crate::model::PersonReferenceView;
use crate::model::PersonView;
use crate::model::Repository;
use crate::model::RepositoryReference;
use crate::model::RepositoryReferenceView;
use crate::model::RepositoryView;
use crate::model::opt_str_view;
use crate::model::pairs_view;
use crate::model::refs_view;
use crate::model::strs_view;

verus! {

/// Whether `k` is one of the manifest field names the model knows.
pub open spec fn is_known_key(k: Seq<char>) -> bool {
    ||| k == "name"@
    ||| k == "version"@
    ||| k == "description"@
    ||| k == "keywords"@
    ||| k == "homepage"@
    ||| k == "bugs"@
    ||| k == "license"@
    ||| k == "author"@
    ||| k == "contributors"@
    ||| k == "files"@
    ||| k == "main"@
    ||| k == "browser"@
    ||| k == "bin"@
    ||| k == "man"@
    ||| k == "repository"@
    ||| k == "scripts"@
    ||| k == "dependencies"@
    ||| k == "devDependencies"@
    ||| k == "peerDependencies"@
    ||| k == "bundledDependencies"@
    ||| k == "optionalDependencies"@
    ||| k == "engines"@
    ||| k == "private"@
}

/// A required string field: present and a string, or a failure.
pub open spec fn dec_req_str_field(
    fields: Seq<(Seq<char>, JsonView)>,
    key: Seq<char>,
) -> Option<Seq<char>> {
    match spec_lookup(fields, key) {
        Some(JsonView::Str(s)) => Some(s),
        _ => None,
    }
}

/// An optional string field: absent or null is no value, a string is a
/// value, anything else is a failure.
pub open spec fn dec_opt_str_field(
    fields: Seq<(Seq<char>, JsonView)>,
    key: Seq<char>,
) -> Option<Option<Seq<char>>> {
    match spec_lookup(fields, key) {
        None => Some(None),
        Some(JsonView::Null) => Some(None),
        Some(JsonView::Str(s)) => Some(Some(s)),
        Some(_) => None,
    }
}

/// A sequence of strings; any element of another shape is a failure.
pub open spec fn dec_strs(items: Seq<JsonView>) -> Option<Seq<Seq<char>>>
    decreases items.len(),
{
    if items.len() == 0 {
        Some(Seq::empty())
    } else {
        match dec_strs(items.drop_last()) {
            None => None,
            Some(init) => match items.last() {
                JsonView::Str(s) => Some(init.push(s)),
                _ => None,
            },
        }
    }
}

/// A string-sequence field: absent is empty, an array of strings is its
/// texts, anything else is a failure.
pub open spec fn dec_seq_field(
    fields: Seq<(Seq<char>, JsonView)>,
    key: Seq<char>,
) -> Option<Seq<Seq<char>>> {
    match spec_lookup(fields, key) {
        None => Some(Seq::empty()),
        Some(JsonView::Arr(items)) => dec_strs(items),
        Some(_) => None,
    }
}

/// Object entries whose values must all be strings.
pub open spec fn dec_str_pairs(entries: Seq<(Seq<char>, JsonView)>) -> Option<
    Seq<(Seq<char>, Seq<char>)>,
>
    decreases entries.len(),
{
    if entries.len() == 0 {
        Some(Seq::empty())
    } else {
        match dec_str_pairs(entries.drop_last()) {
            None => None,
            Some(init) => match entries.last().1 {
                JsonView::Str(s) => Some(init.push((entries.last().0, s))),
                _ => None,
            },
        }
    }
}

/// A string-map field: absent is empty, an object of strings is its entries,
/// anything else is a failure.
pub open spec fn dec_map_field(
    fields: Seq<(Seq<char>, JsonView)>,
    key: Seq<char>,
) -> Option<Seq<(Seq<char>, Seq<char>)>> {
    match spec_lookup(fields, key) {
        None => Some(Seq::empty()),
        Some(JsonView::Obj(entries)) => dec_str_pairs(entries),
        Some(_) => None,
    }
}

/// A boolean field: absent is `false`, anything but a boolean is a failure.
pub open spec fn dec_bool_field(
    fields: Seq<(Seq<char>, JsonView)>,
    key: Seq<char>,
) -> Option<bool> {
    match spec_lookup(fields, key) {
        None => Some(false),
        Some(JsonView::Bool(b)) => Some(b),
        Some(_) => None,
    }
}

/// A bug form: an object with optional `email` and `url` strings. Keys the
/// record does not know are ignored.
pub open spec fn dec_bug(j: JsonView) -> Option<BugView> {
    match j {
        JsonView::Obj(entries) => match dec_opt_str_field(entries, "email"@) {
            None => None,
            Some(email) => match dec_opt_str_field(entries, "url"@) {
                None => None,
                Some(url) => Some(BugView { email, url }),
            },
        },
        _ => None,
    }
}

/// An optional bug field: absent or null is no value.
pub open spec fn dec_bug_field(
    fields: Seq<(Seq<char>, JsonView)>,
    key: Seq<char>,
) -> Option<Option<BugView>> {
    match spec_lookup(fields, key) {
        None => Some(None),
        Some(JsonView::Null) => Some(None),
        Some(v) => match dec_bug(v) {
            None => None,
            Some(b) => Some(Some(b)),
        },
    }
}

/// A person record: an object whose `name` is a required string. Keys the
/// record does not know are ignored.
pub open spec fn dec_person(j: JsonView) -> Option<PersonView> {
    match j {
        JsonView::Obj(entries) => match dec_req_str_field(entries, "name"@) {
            None => None,
            Some(name) => match dec_opt_str_field(entries, "email"@) {
                None => None,
                Some(email) => match dec_opt_str_field(entries, "url"@) {
                    None => None,
                    Some(url) => Some(PersonView { name, email, url }),
                },
            },
        },
        _ => None,
    }
}

/// A person reference, chosen by the JSON value's shape: a string is a short
/// reference, an object is a full person record, anything else is a failure.
pub open spec fn dec_person_ref(j: JsonView) -> Option<PersonReferenceView> {
    match j {
        JsonView::Str(s) => Some(PersonReferenceView::Short(s)),
        JsonView::Obj(_) => match dec_person(j) {
            None => None,
            Some(p) => Some(PersonReferenceView::Full(p)),
        },
        _ => None,
    }
}

/// An optional person-reference field: absent or null is no value.
pub open spec fn dec_person_ref_field(
    fields: Seq<(Seq<char>, JsonView)>,
    key: Seq<char>,
) -> Option<Option<PersonReferenceView>> {
    match spec_lookup(fields, key) {
        None => Some(None),
        Some(JsonView::Null) => Some(None),
        Some(v) => match dec_person_ref(v) {
            None => None,
            Some(r) => Some(Some(r)),
        },
    }
}

/// A sequence of person references.
pub open spec fn dec_refs(items: Seq<JsonView>) -> Option<Seq<PersonReferenceView>>
    decreases items.len(),
{
    if items.len() == 0 {
        Some(Seq::empty())
    } else {
        match dec_refs(items.drop_last()) {
            None => None,
            Some(init) => match dec_person_ref(items.last()) {
                None => None,
                Some(r) => Some(init.push(r)),
            },
        }
    }
}

/// A person-reference-sequence field: absent is empty.
pub open spec fn dec_refs_field(
    fields: Seq<(Seq<char>, JsonView)>,
    key: Seq<char>,
) -> Option<Seq<PersonReferenceView>> {
    match spec_lookup(fields, key) {
        None => Some(Seq::empty()),
        Some(JsonView::Arr(items)) => dec_refs(items),
        Some(_) => None,
    }
}

/// A man-page reference, chosen by shape: a string is a single page, an
/// array of strings is a list of pages, anything else is a failure.
pub open spec fn dec_man_ref(j: JsonView) -> Option<ManReferenceView> {
    match j {
        JsonView::Str(s) => Some(ManReferenceView::Single(s)),
        JsonView::Arr(items) => match dec_strs(items) {
            None => None,
            Some(ss) => Some(ManReferenceView::Multiple(ss)),
        },
        _ => None,
    }
}

/// An optional man-page field: absent or null is no value.
pub open spec fn dec_man_field(
    fields: Seq<(Seq<char>, JsonView)>,
    key: Seq<char>,
) -> Option<Option<ManReferenceView>> {
    match spec_lookup(fields, key) {
        None => Some(None),
        Some(JsonView::Null) => Some(None),
        Some(v) => match dec_man_ref(v) {
            None => None,
            Some(m) => Some(Some(m)),
        },
    }
}

/// A repository record: an object whose `type` and `url` are required
/// strings. Keys the record does not know are ignored.
pub open spec fn dec_repo(j: JsonView) -> Option<RepositoryView> {
    match j {
        JsonView::Obj(entries) => match dec_req_str_field(entries, "type"@) {
            None => None,
            Some(vcs) => match dec_req_str_field(entries, "url"@) {
                None => None,
                Some(url) => Some(RepositoryView { vcs, url }),
            },
        },
        _ => None,
    }
}

/// A repository reference, chosen by shape: a string is a short reference,
/// an object is a full record, anything else is a failure.
pub open spec fn dec_repo_ref(j: JsonView) -> Option<RepositoryReferenceView> {
    match j {
        JsonView::Str(s) => Some(RepositoryReferenceView::Short(s)),
        JsonView::Obj(_) => match dec_repo(j) {
            None => None,
            Some(r) => Some(RepositoryReferenceView::Full(r)),
        },
        _ => None,
    }
}

/// An optional repository field: absent or null is no value.
pub open spec fn dec_repo_field(
    fields: Seq<(Seq<char>, JsonView)>,
    key: Seq<char>,
) -> Option<Option<RepositoryReferenceView>> {
    match spec_lookup(fields, key) {
        None => Some(None),
        Some(JsonView::Null) => Some(None),
        Some(v) => match dec_repo_ref(v) {
            None => None,
            Some(r) => Some(Some(r)),
        },
    }
}

/// The entries of `fields` whose keys the model does not know, in document
/// order and verbatim.
pub open spec fn collect_others(fields: Seq<(Seq<char>, JsonView)>) -> Seq<
    (Seq<char>, JsonView),
>
    decreases fields.len(),
{
    if fields.len() == 0 {
        Seq::empty()
    } else {
        collect_others(fields.drop_last()) + (if is_known_key(fields.last().0) {
            Seq::empty()
        } else {
            seq![fields.last()]
        })
    }
}

/// What the entries of a manifest document decode to, if anything.
pub open spec fn spec_decode_fields(fields: Seq<(Seq<char>, JsonView)>) -> Option<PackageView> {
    let name = dec_req_str_field(fields, "name"@);
    let version = dec_req_str_field(fields, "version"@);
    let description = dec_opt_str_field(fields, "description"@);
    let keywords = dec_seq_field(fields, "keywords"@);
    let homepage = dec_opt_str_field(fields, "homepage"@);
    let bugs = dec_bug_field(fields, "bugs"@);
    let license = dec_opt_str_field(fields, "license"@);
    let author = dec_person_ref_field(fields, "author"@);
    let contributors = dec_refs_field(fields, "contributors"@);
    let files = dec_seq_field(fields, "files"@);
    let main = dec_opt_str_field(fields, "main"@);
    let browser = dec_opt_str_field(fields, "browser"@);
    let bin = dec_map_field(fields, "bin"@);
    let man = dec_man_field(fields, "man"@);
    let repository = dec_repo_field(fields, "repository"@);
    let scripts = dec_map_field(fields, "scripts"@);
    let dependencies = dec_map_field(fields, "dependencies"@);
    let dev_dependencies = dec_map_field(fields, "devDependencies"@);
    let peer_dependencies = dec_map_field(fields, "peerDependencies"@);
    let bundled_dependencies = dec_map_field(fields, "bundledDependencies"@);
    let optional_dependencies = dec_map_field(fields, "optionalDependencies"@);
    let engines = dec_map_field(fields, "engines"@);
    let private = dec_bool_field(fields, "private"@);
    if name is None || version is None || description is None || keywords is None || homepage
        is None || bugs is None || license is None || author is None || contributors is None
        || files is None || main is None || browser is None || bin is None || man is None
        || repository is None || scripts is None || dependencies is None || dev_dependencies
        is None || peer_dependencies is None || bundled_dependencies is None
        || optional_dependencies is None || engines is None || private is None {
        None
    } else {
        Some(
            PackageView {
                name: name->0,
                version: version->0,
                description: description->0,
                keywords: keywords->0,
                homepage: homepage->0,
                bugs: bugs->0,
                license: license->0,
                author: author->0,
                contributors: contributors->0,
                files: files->0,
                main: main->0,
                browser: browser->0,
                bin: bin->0,
                man: man->0,
                repository: repository->0,
                scripts: scripts->0,
                dependencies: dependencies->0,
                dev_dependencies: dev_dependencies->0,
                peer_dependencies: peer_dependencies->0,
                bundled_dependencies: bundled_dependencies->0,
                optional_dependencies: optional_dependencies->0,
                engines: engines->0,
                private: private->0,
                others: collect_others(fields),
            },
        )
    }
}

/// What a JSON tree decodes to: only an object can be a manifest.
pub open spec fn spec_decode(j: JsonView) -> Option<PackageView> {
    match j {
        JsonView::Obj(fields) => spec_decode_fields(fields),
        _ => None,
    }
}

/// A failing prefix makes the whole string sequence fail.
proof fn lemma_dec_strs_none(items: Seq<JsonView>, i: int)
    requires
        0 <= i <= items.len(),
        dec_strs(items.take(i)) is None,
    ensures
        dec_strs(items) is None,
    decreases items.len(),
{
    if i < items.len() {
        assert(items.drop_last().take(i) =~= items.take(i));
        lemma_dec_strs_none(items.drop_last(), i);
    } else {
        assert(items.take(i) =~= items);
    }
}

/// A failing prefix makes the whole entry sequence fail.
proof fn lemma_dec_str_pairs_none(entries: Seq<(Seq<char>, JsonView)>, i: int)
    requires
        0 <= i <= entries.len(),
        dec_str_pairs(entries.take(i)) is None,
    ensures
        dec_str_pairs(entries) is None,
    decreases entries.len(),
{
    if i < entries.len() {
        assert(entries.drop_last().take(i) =~= entries.take(i));
        lemma_dec_str_pairs_none(entries.drop_last(), i);
    } else {
        assert(entries.take(i) =~= entries);
    }
}

/// A failing prefix makes the whole reference sequence fail.
proof fn lemma_dec_refs_none(items: Seq<JsonView>, i: int)
    requires
        0 <= i <= items.len(),
        dec_refs(items.take(i)) is None,
    ensures
        dec_refs(items) is None,
    decreases items.len(),
{
    if i < items.len() {
        assert(items.drop_last().take(i) =~= items.take(i));
        lemma_dec_refs_none(items.drop_last(), i);
    } else {
        assert(items.take(i) =~= items);
    }
}

/// Reads a required string field.
fn get_req_str(fields: &Vec<(String, Json)>, key: &str) -> (r: Result<String, Error>)
    ensures
        match r {
            Ok(s) => dec_req_str_field(fields_view(fields@), key@) == Some(s@),
            Err(e) => e == Error::Parse && dec_req_str_field(fields_view(fields@), key@)
                is None,
        },
{
    match lookup(fields, key) {
        Some(v) => match v {
            Json::Str(s) => Ok(s.clone()),
            _ => Err(Error::Parse),
        },
        None => Err(Error::Parse),
    }
}

/// Reads an optional string field; absent and null are no value.
fn get_opt_str(fields: &Vec<(String, Json)>, key: &str) -> (r: Result<Option<String>, Error>)
    ensures
        match r {
            Ok(o) => dec_opt_str_field(fields_view(fields@), key@) == Some(opt_str_view(o)),
            Err(e) => e == Error::Parse && dec_opt_str_field(fields_view(fields@), key@)
                is None,
        },
{
    match lookup(fields, key) {
        None => Ok(None),
        Some(v) => match v {
            Json::Null => Ok(None),
            Json::Str(s) => Ok(Some(s.clone())),
            _ => Err(Error::Parse),
        },
    }
}

/// Reads an array whose elements must all be strings.
#[verifier::loop_isolation(false)]
fn get_strs(items: &Vec<Json>) -> (r: Result<Vec<String>, Error>)
    ensures
        match r {
            Ok(v) => dec_strs(items_view(items@)) == Some(strs_view(v@)),
            Err(e) => e == Error::Parse && dec_strs(items_view(items@)) is None,
        },
{
    let ghost iv = items_view(items@);
    let mut out: Vec<String> = Vec::new();
    let mut i: usize = 0;
    proof {
        assert(iv.take(0) =~= Seq::<JsonView>::empty());
        assert(strs_view(out@) =~= Seq::<Seq<char>>::empty());
    }
    while i < items.len()
        invariant
            0 <= i <= items.len(),
            dec_strs(iv.take(i as int)) == Some(strs_view(out@)),
        decreases items.len() - i,
    {
        match &items[i] {
            Json::Str(s) => {
                let c = s.clone();
                out.push(c);
                proof {
                    assert(iv.take(i + 1).drop_last() =~= iv.take(i as int));
                    assert(iv.take(i + 1).last() == items@[i as int]@);
                    assert(strs_view(out@) =~= strs_view(out@.drop_last()).push(s@));
                }
            },
            _ => {
                proof {
                    assert(iv.take(i + 1).drop_last() =~= iv.take(i as int));
                    assert(iv.take(i + 1).last() == items@[i as int]@);
                    assert(dec_strs(iv.take(i + 1)) is None);
                    lemma_dec_strs_none(iv, i + 1);
                }
                return Err(Error::Parse);
            },
        }
        i = i + 1;
    }
    proof {
        assert(iv.take(items@.len() as int) =~= iv);
    }
    Ok(out)
}

/// Reads a string-sequence field; absent is empty.
fn get_seq_field(fields: &Vec<(String, Json)>, key: &str) -> (r: Result<Vec<String>, Error>)
    ensures
        match r {
            Ok(v) => dec_seq_field(fields_view(fields@), key@) == Some(strs_view(v@)),
            Err(e) => e == Error::Parse && dec_seq_field(fields_view(fields@), key@) is None,
        },
{
    match lookup(fields, key) {
        None => {
            let v: Vec<String> = Vec::new();
            proof {
                assert(strs_view(v@) =~= Seq::<Seq<char>>::empty());
            }
            Ok(v)
        },
        Some(v) => match v {
            Json::Arr(items) => {
                proof {
                    lemma_arr_view(*v);
                }
                get_strs(items)
            },
            _ => Err(Error::Parse),
        },
    }
}

/// Reads an object whose values must all be strings, as map entries.
#[verifier::loop_isolation(false)]
fn get_pairs(entries: &Vec<(String, Json)>) -> (r: Result<Vec<(String, String)>, Error>)
    ensures
        match r {
            Ok(v) => dec_str_pairs(fields_view(entries@)) == Some(pairs_view(v@)),
            Err(e) => e == Error::Parse && dec_str_pairs(fields_view(entries@)) is None,
        },
{
    let ghost ev = fields_view(entries@);
    let mut out: Vec<(String, String)> = Vec::new();
    let mut i: usize = 0;
    proof {
        assert(ev.take(0) =~= Seq::<(Seq<char>, JsonView)>::empty());
        assert(pairs_view(out@) =~= Seq::<(Seq<char>, Seq<char>)>::empty());
    }
    while i < entries.len()
        invariant
            0 <= i <= entries.len(),
            dec_str_pairs(ev.take(i as int)) == Some(pairs_view(out@)),
        decreases entries.len() - i,
    {
        match &entries[i].1 {
            Json::Str(s) => {
                let k = entries[i].0.clone();
                let c = s.clone();
                out.push((k, c));
                proof {
                    assert(ev.take(i + 1).drop_last() =~= ev.take(i as int));
                    assert(ev.take(i + 1).last() == (entries@[i as int].0@, entries@[
                        i as int].1@));
                    assert(pairs_view(out@) =~= pairs_view(out@.drop_last()).push(
                        (entries@[i as int].0@, s@),
                    ));
                }
            },
            _ => {
                proof {
                    assert(ev.take(i + 1).drop_last() =~= ev.take(i as int));
                    assert(ev.take(i + 1).last() == (entries@[i as int].0@, entries@[
                        i as int].1@));
                    assert(dec_str_pairs(ev.take(i + 1)) is None);
                    lemma_dec_str_pairs_none(ev, i + 1);
                }
                return Err(Error::Parse);
            },
        }
        i = i + 1;
    }
    proof {
        assert(ev.take(entries@.len() as int) =~= ev);
    }
    Ok(out)
}

/// Reads a string-map field; absent is empty.
fn get_map_field(fields: &Vec<(String, Json)>, key: &str) -> (r: Result<
    Vec<(String, String)>,
    Error,
>)
    ensures
        match r {
            Ok(v) => dec_map_field(fields_view(fields@), key@) == Some(pairs_view(v@)),
            Err(e) => e == Error::Parse && dec_map_field(fields_view(fields@), key@) is None,
        },
{
    match lookup(fields, key) {
        None => {
            let v: Vec<(String, String)> = Vec::new();
            proof {
                assert(pairs_view(v@) =~= Seq::<(Seq<char>, Seq<char>)>::empty());
            }
            Ok(v)
        },
        Some(v) => match v {
            Json::Obj(entries) => {
                proof {
                    lemma_obj_view(*v);
                }
                get_pairs(entries)
            },
            _ => Err(Error::Parse),
        },
    }
}

/// Reads a boolean field; absent is `false`.
fn get_bool_field(fields: &Vec<(String, Json)>, key: &str) -> (r: Result<bool, Error>)
    ensures
        match r {
            Ok(b) => dec_bool_field(fields_view(fields@), key@) == Some(b),
            Err(e) => e == Error::Parse && dec_bool_field(fields_view(fields@), key@) is None,
        },
{
    match lookup(fields, key) {
        None => Ok(false),
        Some(v) => match v {
            Json::Bool(b) => Ok(*b),
            _ => Err(Error::Parse),
        },
    }
}

/// Reads one bug form from a JSON value.
fn parse_bug(j: &Json) -> (r: Result<Bug, Error>)
    ensures
        match r {
            Ok(b) => dec_bug(j@) == Some(b@),
            Err(e) => e == Error::Parse && dec_bug(j@) is None,
        },
{
    match j {
        Json::Obj(entries) => {
            proof {
                lemma_obj_view(*j);
            }
            let email = match get_opt_str(entries, "email") {
                Ok(o) => o,
                Err(e) => {
                    return Err(e);
                },
            };
            let url = match get_opt_str(entries, "url") {
                Ok(o) => o,
                Err(e) => {
                    return Err(e);
                },
            };
            Ok(Bug { email, url })
        },
        _ => Err(Error::Parse),
    }
}

/// Reads an optional bug field; absent and null are no value.
fn get_bug_field(fields: &Vec<(String, Json)>, key: &str) -> (r: Result<Option<Bug>, Error>)
    ensures
        match r {
            Ok(o) => dec_bug_field(fields_view(fields@), key@) == Some(
                crate::model::opt_bug_view(o),
            ),
            Err(e) => e == Error::Parse && dec_bug_field(fields_view(fields@), key@) is None,
        },
{
    match lookup(fields, key) {
        None => Ok(None),
        Some(v) => match v {
            Json::Null => Ok(None),
            _ => match parse_bug(v) {
                Ok(b) => Ok(Some(b)),
                Err(e) => Err(e),
            },
        },
    }
}

/// Reads one person record from a JSON value.
fn parse_person(j: &Json) -> (r: Result<Person, Error>)
    ensures
        match r {
            Ok(p) => dec_person(j@) == Some(p@),
            Err(e) => e == Error::Parse && dec_person(j@) is None,
        },
{
    match j {
        Json::Obj(entries) => {
            proof {
                lemma_obj_view(*j);
            }
            let name = match get_req_str(entries, "name") {
                Ok(s) => s,
                Err(e) => {
                    return Err(e);
                },
            };
            let email = match get_opt_str(entries, "email") {
                Ok(o) => o,
                Err(e) => {
                    return Err(e);
                },
            };
            let url = match get_opt_str(entries, "url") {
                Ok(o) => o,
                Err(e) => {
                    return Err(e);
                },
            };
            Ok(Person { name, email, url })
        },
        _ => Err(Error::Parse),
    }
}

/// Reads one person reference, by the shape of the JSON value.
fn parse_person_ref(j: &Json) -> (r: Result<PersonReference, Error>)
    ensures
        match r {
            Ok(p) => dec_person_ref(j@) == Some(p@),
            Err(e) => e == Error::Parse && dec_person_ref(j@) is None,
        },
{
    match j {
        Json::Str(s) => Ok(PersonReference::Short(s.clone())),
        Json::Obj(_) => match parse_person(j) {
            Ok(p) => Ok(PersonReference::Full(p)),
            Err(e) => Err(e),
        },
        _ => Err(Error::Parse),
    }
}

/// Reads an optional person-reference field; absent and null are no value.
fn get_person_ref_field(fields: &Vec<(String, Json)>, key: &str) -> (r: Result<
    Option<PersonReference>,
    Error,
>)
    ensures
        match r {
            Ok(o) => dec_person_ref_field(fields_view(fields@), key@) == Some(
                crate::model::opt_ref_view(o),
            ),
            Err(e) => e == Error::Parse && dec_person_ref_field(fields_view(fields@), key@)
                is None,
        },
{
    match lookup(fields, key) {
        None => Ok(None),
        Some(v) => match v {
            Json::Null => Ok(None),
            _ => match parse_person_ref(v) {
                Ok(p) => Ok(Some(p)),
                Err(e) => Err(e),
            },
        },
    }
}

/// Reads an array of person references.
#[verifier::loop_isolation(false)]
fn get_refs(items: &Vec<Json>) -> (r: Result<Vec<PersonReference>, Error>)
    ensures
        match r {
            Ok(v) => dec_refs(items_view(items@)) == Some(refs_view(v@)),
            Err(e) => e == Error::Parse && dec_refs(items_view(items@)) is None,
        },
{
    let ghost iv = items_view(items@);
    let mut out: Vec<PersonReference> = Vec::new();
    let mut i: usize = 0;
    proof {
        assert(iv.take(0) =~= Seq::<JsonView>::empty());
        assert(refs_view(out@) =~= Seq::<PersonReferenceView>::empty());
    }
    while i < items.len()
        invariant
            0 <= i <= items.len(),
            dec_refs(iv.take(i as int)) == Some(refs_view(out@)),
        decreases items.len() - i,
    {
        match parse_person_ref(&items[i]) {
            Ok(p) => {
                out.push(p);
                proof {
                    assert(iv.take(i + 1).drop_last() =~= iv.take(i as int));
                    assert(iv.take(i + 1).last() == items@[i as int]@);
                    assert(refs_view(out@) =~= refs_view(out@.drop_last()).push(
                        out@.last()@,
                    ));
                }
            },
            Err(e) => {
                proof {
                    assert(iv.take(i + 1).drop_last() =~= iv.take(i as int));
                    assert(iv.take(i + 1).last() == items@[i as int]@);
                    assert(dec_refs(iv.take(i + 1)) is None);
                    lemma_dec_refs_none(iv, i + 1);
                }
                return Err(e);
            },
        }
        i = i + 1;
    }
    proof {
        assert(iv.take(items@.len() as int) =~= iv);
    }
    Ok(out)
}

/// Reads a person-reference-sequence field; absent is empty.
fn get_refs_field(fields: &Vec<(String, Json)>, key: &str) -> (r: Result<
    Vec<PersonReference>,
    Error,
>)
    ensures
        match r {
            Ok(v) => dec_refs_field(fields_view(fields@), key@) == Some(refs_view(v@)),
            Err(e) => e == Error::Parse && dec_refs_field(fields_view(fields@), key@) is None,
        },
{
    match lookup(fields, key) {
        None => {
            let v: Vec<PersonReference> = Vec::new();
            proof {
                assert(refs_view(v@) =~= Seq::<PersonReferenceView>::empty());
            }
            Ok(v)
        },
        Some(v) => match v {
            Json::Arr(items) => {
                proof {
                    lemma_arr_view(*v);
                }
                get_refs(items)
            },
            _ => Err(Error::Parse),
        },
    }
}

/// Reads one man-page reference, by the shape of the JSON value.
fn parse_man_ref(j: &Json) -> (r: Result<ManReference, Error>)
    ensures
        match r {
            Ok(m) => dec_man_ref(j@) == Some(m@),
            Err(e) => e == Error::Parse && dec_man_ref(j@) is None,
        },
{
    match j {
        Json::Str(s) => Ok(ManReference::Single(s.clone())),
        Json::Arr(items) => {
            proof {
                lemma_arr_view(*j);
            }
            match get_strs(items) {
                Ok(v) => Ok(ManReference::Multiple(v)),
                Err(e) => Err(e),
            }
        },
        _ => Err(Error::Parse),
    }
}

/// Reads an optional man-page field; absent and null are no value.
fn get_man_field(fields: &Vec<(String, Json)>, key: &str) -> (r: Result<
    Option<ManReference>,
    Error,
>)
    ensures
        match r {
            Ok(o) => dec_man_field(fields_view(fields@), key@) == Some(
                crate::model::opt_man_view(o),
            ),
            Err(e) => e == Error::Parse && dec_man_field(fields_view(fields@), key@) is None,
        },
{
    match lookup(fields, key) {
        None => Ok(None),
        Some(v) => match v {
            Json::Null => Ok(None),
            _ => match parse_man_ref(v) {
                Ok(m) => Ok(Some(m)),
                Err(e) => Err(e),
            },
        },
    }
}

/// Reads one repository record from a JSON value.
fn parse_repo(j: &Json) -> (r: Result<Repository, Error>)
    ensures
        match r {
            Ok(p) => dec_repo(j@) == Some(p@),
            Err(e) => e == Error::Parse && dec_repo(j@) is None,
        },
{
    match j {
        Json::Obj(entries) => {
            proof {
                lemma_obj_view(*j);
            }
            let vcs = match get_req_str(entries, "type") {
                Ok(s) => s,
                Err(e) => {
                    return Err(e);
                },
            };
            let url = match get_req_str(entries, "url") {
                Ok(s) => s,
                Err(e) => {
                    return Err(e);
                },
            };
            Ok(Repository { vcs, url })
        },
        _ => Err(Error::Parse),
    }
}

/// Reads one repository reference, by the shape of the JSON value.
fn parse_repo_ref(j: &Json) -> (r: Result<RepositoryReference, Error>)
    ensures
        match r {
            Ok(p) => dec_repo_ref(j@) == Some(p@),
            Err(e) => e == Error::Parse && dec_repo_ref(j@) is None,
        },
{
    match j {
        Json::Str(s) => Ok(RepositoryReference::Short(s.clone())),
        Json::Obj(_) => match parse_repo(j) {
            Ok(p) => Ok(RepositoryReference::Full(p)),
            Err(e) => Err(e),
        },
        _ => Err(Error::Parse),
    }
}

/// Reads an optional repository field; absent and null are no value.
fn get_repo_field(fields: &Vec<(String, Json)>, key: &str) -> (r: Result<
    Option<RepositoryReference>,
    Error,
>)
    ensures
        match r {
            Ok(o) => dec_repo_field(fields_view(fields@), key@) == Some(
                crate::model::opt_repo_view(o),
            ),
            Err(e) => e == Error::Parse && dec_repo_field(fields_view(fields@), key@) is None,
        },
{
    match lookup(fields, key) {
        None => Ok(None),
        Some(v) => match v {
            Json::Null => Ok(None),
            _ => match parse_repo_ref(v) {
                Ok(p) => Ok(Some(p)),
                Err(e) => Err(e),
            },
        },
    }
}

/// Whether `key` is one of the known manifest field names.
fn is_known(key: &str) -> (r: bool)
    ensures
        r == is_known_key(key@),
{
    str_eq(key, "name") || str_eq(key, "version") || str_eq(key, "description") || str_eq(
        key,
        "keywords",
    ) || str_eq(key, "homepage") || str_eq(key, "bugs") || str_eq(key, "license") || str_eq(
        key,
        "author",
    ) || str_eq(key, "contributors") || str_eq(key, "files") || str_eq(key, "main") || str_eq(
        key,
        "browser",
    ) || str_eq(key, "bin") || str_eq(key, "man") || str_eq(key, "repository") || str_eq(
        key,
        "scripts",
    ) || str_eq(key, "dependencies") || str_eq(key, "devDependencies") || str_eq(
        key,
        "peerDependencies",
    ) || str_eq(key, "bundledDependencies") || str_eq(key, "optionalDependencies") || str_eq(
        key,
        "engines",
    ) || str_eq(key, "private")
}

/// Copies the entries whose keys the model does not know, verbatim and in
/// document order.
#[verifier::loop_isolation(false)]
fn get_others(fields: &Vec<(String, Json)>) -> (r: Vec<(String, Json)>)
    ensures
        fields_view(r@) == collect_others(fields_view(fields@)),
{
    let ghost fv = fields_view(fields@);
    let mut out: Vec<(String, Json)> = Vec::new();
    let mut i: usize = 0;
    proof {
        assert(fv.take(0) =~= Seq::<(Seq<char>, JsonView)>::empty());
        assert(fields_view(out@) =~= Seq::<(Seq<char>, JsonView)>::empty());
    }
    while i < fields.len()
        invariant
            0 <= i <= fields.len(),
            fields_view(out@) == collect_others(fv.take(i as int)),
        decreases fields.len() - i,
    {
        proof {
            assert(fv.take(i + 1).drop_last() =~= fv.take(i as int));
            assert(fv.take(i + 1).last() == (fields@[i as int].0@, fields@[i as int].1@));
        }
        if !is_known(fields[i].0.as_str()) {
            let k = fields[i].0.clone();
            let v = crate::json::clone_json(&fields[i].1);
            out.push((k, v));
            proof {
                assert(fields_view(out@) =~= collect_others(fv.take(i as int)) + seq![
                    fv.take(i + 1).last(),
                ]);
            }
        } else {
            proof {
                assert(collect_others(fv.take(i + 1)) =~= collect_others(fv.take(i as int)));
            }
        }
        i = i + 1;
    }
    proof {
        assert(fv.take(fields@.len() as int) =~= fv);
    }
    out
}

impl Package {
    /// Decodes a JSON tree into a manifest.
    ///
    /// The decode succeeds exactly on the trees on which [`spec_decode`]
    /// yields a manifest, and yields that manifest; on every other tree it
    /// reports a parse failure.
    pub fn from_json(j: &Json) -> (r: Result<Package, Error>)
        ensures
            spec_decode(j@) matches Some(p) ==> r matches Ok(q) && q@ == p,
            spec_decode(j@) is None ==> r == Err::<Package, Error>(Error::Parse),
    {
        let fields = match j {
            Json::Obj(fields) => fields,
            _ => {
                return Err(Error::Parse);
            },
        };
        proof {
            lemma_obj_view(*j);
        }
        let name = match get_req_str(fields, "name") {
            Ok(v) => v,
            Err(e) => {
                return Err(e);
            },
        };
        let version = match get_req_str(fields, "version") {
            Ok(v) => v,
            Err(e) => {
                return Err(e);
            },
        };
        let description = match get_opt_str(fields, "description") {
            Ok(v) => v,
            Err(e) => {
                return Err(e);
            },
        };
        let keywords = match get_seq_field(fields, "keywords") {
            Ok(v) => v,
            Err(e) => {
                return Err(e);
            },
        };
        let homepage = match get_opt_str(fields, "homepage") {
            Ok(v) => v,
            Err(e) => {
                return Err(e);
            },
        };
        let bugs = match get_bug_field(fields, "bugs") {
            Ok(v) => v,
            Err(e) => {
                return Err(e);
            },
        };
        let license = match get_opt_str(fields, "license") {
            Ok(v) => v,
            Err(e) => {
                return Err(e);
            },
        };
        let author = match get_person_ref_field(fields, "author") {
            Ok(v) => v,
            Err(e) => {
                return Err(e);
            },
        };
        let contributors = match get_refs_field(fields, "contributors") {
            Ok(v) => v,
            Err(e) => {
                return Err(e);
            },
        };
        let files = match get_seq_field(fields, "files") {
            Ok(v) => v,
            Err(e) => {
                return Err(e);
            },
        };
        let main = match get_opt_str(fields, "main") {
            Ok(v) => v,
            Err(e) => {
                return Err(e);
            },
        };
        let browser = match get_opt_str(fields, "browser") {
            Ok(v) => v,
            Err(e) => {
                return Err(e);
            },
        };
        let bin = match get_map_field(fields, "bin") {
            Ok(v) => v,
            Err(e) => {
                return Err(e);
            },
        };
        let man = match get_man_field(fields, "man") {
            Ok(v) => v,
            Err(e) => {
                return Err(e);
            },
        };
        let repository = match get_repo_field(fields, "repository") {
            Ok(v) => v,
            Err(e) => {
                return Err(e);
            },
        };
        let scripts = match get_map_field(fields, "scripts") {
            Ok(v) => v,
            Err(e) => {
                return Err(e);
            },
        };
        let dependencies = match get_map_field(fields, "dependencies") {
            Ok(v) => v,
            Err(e) => {
                return Err(e);
            },
        };
        let dev_dependencies = match get_map_field(fields, "devDependencies") {
            Ok(v) => v,
            Err(e) => {
                return Err(e);
            },
        };
        let peer_dependencies = match get_map_field(fields, "peerDependencies") {
            Ok(v) => v,
            Err(e) => {
                return Err(e);
            },
        };
        let bundled_dependencies = match get_map_field(fields, "bundledDependencies") {
            Ok(v) => v,
            Err(e) => {
                return Err(e);
            },
        };
        let optional_dependencies = match get_map_field(fields, "optionalDependencies") {
            Ok(v) => v,
            Err(e) => {
                return Err(e);
            },
        };
        let engines = match get_map_field(fields, "engines") {
            Ok(v) => v,
            Err(e) => {
                return Err(e);
            },
        };
        let private = match get_bool_field(fields, "private") {
            Ok(v) => v,
            Err(e) => {
                return Err(e);
            },
        };
        let others = get_others(fields);
        Ok(
            Package {
                name,
                version,
                description,
                keywords,
                homepage,
                bugs,
                license,
                author,
                contributors,
                files,
                main,
                browser,
                bin,
                man,
                repository,
                scripts,
                dependencies,
                dev_dependencies,
                peer_dependencies,
                bundled_dependencies,
                optional_dependencies,
                engines,
                private,
                others,
            },
        )
    }
}

} // verus!
