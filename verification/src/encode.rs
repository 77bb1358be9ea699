//! Encoding: mapping a manifest back onto a JSON tree.
//!
//! Every known field is emitted under its document name, in a fixed order;
//! optional fields that hold no value are emitted as `null`; the catch-all
//! entries are appended verbatim after the known fields.

use vstd::prelude::*;

use crate::json::Json;
use crate::json::JsonView;
use crate::json::fields_view;
use crate::json::items_view;
use crate::json::lemma_arr_view;
use crate::json::lemma_obj_view;
use crate::model::Bug;
use crate::model::BugView;
use crate::model::ManReference;
use crate::model::ManReferenceView;
use crate::model::Package;
use crate::model::PackageView;
use crate::model::Person;
use crate::model::PersonReference;
use crate::model::PersonReferenceView;
use crate::model::PersonView;
use crate::model::Repository;
use crate::model::RepositoryReference;
use crate::model::RepositoryReferenceView;
use crate::model::RepositoryView;
use crate::model::opt_bug_view;
use crate::model::opt_man_view;
use crate::model::opt_ref_view;
use crate::model::opt_repo_view;
use crate::model::opt_str_view;
use crate::model::pairs_view;
use crate::model::refs_view;
use crate::model::strs_view;

verus! {

/// An optional string encodes to `null` or to a string.
pub open spec fn enc_opt_str(o: Option<Seq<char>>) -> JsonView {
    match o {
        None => JsonView::Null,
        Some(s) => JsonView::Str(s),
    }
}

/// A sequence of strings encodes to its elements.
pub open spec fn enc_strs(items: Seq<Seq<char>>) -> Seq<JsonView> {
    items.map_values(|s: Seq<char>| JsonView::Str(s))
}

/// Map entries encode to object entries with string values.
pub open spec fn enc_pairs(m: Seq<(Seq<char>, Seq<char>)>) -> Seq<(Seq<char>, JsonView)> {
    m.map_values(|p: (Seq<char>, Seq<char>)| (p.0, JsonView::Str(p.1)))
}

/// A bug form encodes to an object with `email` and `url`.
pub open spec fn enc_bug(b: BugView) -> JsonView {
    JsonView::Obj(seq![("email"@, enc_opt_str(b.email)), ("url"@, enc_opt_str(b.url))])
}

/// An optional bug form encodes to `null` or to the form.
pub open spec fn enc_opt_bug(o: Option<BugView>) -> JsonView {
    match o {
        None => JsonView::Null,
        Some(b) => enc_bug(b),
    }
}

/// A person encodes to an object with `name`, `email` and `url`.
pub open spec fn enc_person(p: PersonView) -> JsonView {
    JsonView::Obj(
        seq![
            ("name"@, JsonView::Str(p.name)),
            ("email"@, enc_opt_str(p.email)),
            ("url"@, enc_opt_str(p.url)),
        ],
    )
}

/// A person reference encodes back to the shape it was chosen from.
pub open spec fn enc_person_ref(r: PersonReferenceView) -> JsonView {
    match r {
        PersonReferenceView::Short(s) => JsonView::Str(s),
        PersonReferenceView::Full(p) => enc_person(p),
    }
}

/// An optional person reference encodes to `null` or to the reference.
pub open spec fn enc_opt_person_ref(o: Option<PersonReferenceView>) -> JsonView {
    match o {
        None => JsonView::Null,
        Some(r) => enc_person_ref(r),
    }
}

/// A sequence of person references encodes element by element.
pub open spec fn enc_refs(rs: Seq<PersonReferenceView>) -> Seq<JsonView> {
    rs.map_values(|r: PersonReferenceView| enc_person_ref(r))
}

/// A man-page reference encodes back to the shape it was chosen from.
pub open spec fn enc_man(m: ManReferenceView) -> JsonView {
    match m {
        ManReferenceView::Single(s) => JsonView::Str(s),
        ManReferenceView::Multiple(ss) => JsonView::Arr(enc_strs(ss)),
    }
}

/// An optional man-page reference encodes to `null` or to the reference.
pub open spec fn enc_opt_man(o: Option<ManReferenceView>) -> JsonView {
    match o {
        None => JsonView::Null,
        Some(m) => enc_man(m),
    }
}

/// A repository encodes to an object with `type` and `url`.
pub open spec fn enc_repo(r: RepositoryView) -> JsonView {
    JsonView::Obj(seq![("type"@, JsonView::Str(r.vcs)), ("url"@, JsonView::Str(r.url))])
}

/// A repository reference encodes back to the shape it was chosen from.
pub open spec fn enc_repo_ref(r: RepositoryReferenceView) -> JsonView {
    match r {
        RepositoryReferenceView::Short(s) => JsonView::Str(s),
        RepositoryReferenceView::Full(p) => enc_repo(p),
    }
}

/// An optional repository reference encodes to `null` or to the reference.
pub open spec fn enc_opt_repo(o: Option<RepositoryReferenceView>) -> JsonView {
    match o {
        None => JsonView::Null,
        Some(r) => enc_repo_ref(r),
    }
}

/// The known fields of a manifest, encoded in their fixed document order.
pub open spec fn enc_known_fields(p: PackageView) -> Seq<(Seq<char>, JsonView)> {
    seq![
        ("name"@, JsonView::Str(p.name)),
        ("version"@, JsonView::Str(p.version)),
        ("description"@, enc_opt_str(p.description)),
        ("keywords"@, JsonView::Arr(enc_strs(p.keywords))),
        ("homepage"@, enc_opt_str(p.homepage)),
        ("bugs"@, enc_opt_bug(p.bugs)),
        ("license"@, enc_opt_str(p.license)),
        ("author"@, enc_opt_person_ref(p.author)),
        ("contributors"@, JsonView::Arr(enc_refs(p.contributors))),
        ("files"@, JsonView::Arr(enc_strs(p.files))),
        ("main"@, enc_opt_str(p.main)),
        ("browser"@, enc_opt_str(p.browser)),
        ("bin"@, JsonView::Obj(enc_pairs(p.bin))),
        ("man"@, enc_opt_man(p.man)),
        ("repository"@, enc_opt_repo(p.repository)),
        ("scripts"@, JsonView::Obj(enc_pairs(p.scripts))),
        ("dependencies"@, JsonView::Obj(enc_pairs(p.dependencies))),
        ("devDependencies"@, JsonView::Obj(enc_pairs(p.dev_dependencies))),
        ("peerDependencies"@, JsonView::Obj(enc_pairs(p.peer_dependencies))),
        ("bundledDependencies"@, JsonView::Obj(enc_pairs(p.bundled_dependencies))),
        ("optionalDependencies"@, JsonView::Obj(enc_pairs(p.optional_dependencies))),
        ("engines"@, JsonView::Obj(enc_pairs(p.engines))),
        ("private"@, JsonView::Bool(p.private)),
    ]
}

/// What a manifest encodes to: the known fields in order, then the
/// catch-all entries verbatim.
pub open spec fn spec_encode(p: PackageView) -> JsonView {
    JsonView::Obj(enc_known_fields(p) + p.others)
}

/// Encodes an optional string.
fn json_opt_str(o: &Option<String>) -> (j: Json)
    ensures
        j@ == enc_opt_str(opt_str_view(*o)),
{
    match o {
        None => Json::Null,
        Some(s) => Json::Str(s.clone()),
    }
}

/// Encodes a sequence of strings as a JSON array.
#[verifier::loop_isolation(false)]
fn json_strs(items: &Vec<String>) -> (j: Json)
    ensures
        j@ == JsonView::Arr(enc_strs(strs_view(items@))),
{
    let mut out: Vec<Json> = Vec::new();
    let mut i: usize = 0;
    while i < items.len()
        invariant
            0 <= i <= items.len(),
            out@.len() == i as int,
            forall|k: int| 0 <= k < i ==> #[trigger] out@[k]@ == JsonView::Str(items@[k]@),
        decreases items.len() - i,
    {
        out.push(Json::Str(items[i].clone()));
        i = i + 1;
    }
    let r = Json::Arr(out);
    proof {
        lemma_arr_view(r);
        assert(items_view(r->Arr_0@) =~= enc_strs(strs_view(items@)));
    }
    r
}

/// Encodes map entries as a JSON object with string values.
#[verifier::loop_isolation(false)]
fn json_pairs(m: &Vec<(String, String)>) -> (j: Json)
    ensures
        j@ == JsonView::Obj(enc_pairs(pairs_view(m@))),
{
    let mut out: Vec<(String, Json)> = Vec::new();
    let mut i: usize = 0;
    while i < m.len()
        invariant
            0 <= i <= m.len(),
            out@.len() == i as int,
            forall|k: int|
                0 <= k < i ==> #[trigger] out@[k].0@ == m@[k].0@ && out@[k].1@ == JsonView::Str(
                    m@[k].1@,
                ),
        decreases m.len() - i,
    {
        let k = m[i].0.clone();
        let v = Json::Str(m[i].1.clone());
        out.push((k, v));
        i = i + 1;
    }
    let r = Json::Obj(out);
    proof {
        lemma_obj_view(r);
        assert(fields_view(r->Obj_0@) =~= enc_pairs(pairs_view(m@)));
    }
    r
}

/// Encodes a bug form.
fn json_bug(b: &Bug) -> (j: Json)
    ensures
        j@ == enc_bug(b@),
{
    let mut out: Vec<(String, Json)> = Vec::new();
    out.push(("email".to_string(), json_opt_str(&b.email)));
    out.push(("url".to_string(), json_opt_str(&b.url)));
    let r = Json::Obj(out);
    proof {
        lemma_obj_view(r);
        assert(fields_view(r->Obj_0@) =~= seq![
            ("email"@, enc_opt_str(opt_str_view(b.email))),
            ("url"@, enc_opt_str(opt_str_view(b.url))),
        ]);
    }
    r
}

/// Encodes an optional bug form.
fn json_opt_bug(o: &Option<Bug>) -> (j: Json)
    ensures
        j@ == enc_opt_bug(opt_bug_view(*o)),
{
    match o {
        None => Json::Null,
        Some(b) => json_bug(b),
    }
}

/// Encodes a person.
fn json_person(p: &Person) -> (j: Json)
    ensures
        j@ == enc_person(p@),
{
    let mut out: Vec<(String, Json)> = Vec::new();
    out.push(("name".to_string(), Json::Str(p.name.clone())));
    out.push(("email".to_string(), json_opt_str(&p.email)));
    out.push(("url".to_string(), json_opt_str(&p.url)));
    let r = Json::Obj(out);
    proof {
        lemma_obj_view(r);
        assert(fields_view(r->Obj_0@) =~= seq![
            ("name"@, JsonView::Str(p.name@)),
            ("email"@, enc_opt_str(opt_str_view(p.email))),
            ("url"@, enc_opt_str(opt_str_view(p.url))),
        ]);
    }
    r
}

/// Encodes a person reference to the shape it was chosen from.
fn json_person_ref(r: &PersonReference) -> (j: Json)
    ensures
        j@ == enc_person_ref(r@),
{
    match r {
        PersonReference::Short(s) => Json::Str(s.clone()),
        PersonReference::Full(p) => json_person(p),
    }
}

/// Encodes an optional person reference.
fn json_opt_person_ref(o: &Option<PersonReference>) -> (j: Json)
    ensures
        j@ == enc_opt_person_ref(opt_ref_view(*o)),
{
    match o {
        None => Json::Null,
        Some(r) => json_person_ref(r),
    }
}

/// Encodes a sequence of person references as a JSON array.
#[verifier::loop_isolation(false)]
fn json_refs(items: &Vec<PersonReference>) -> (j: Json)
    ensures
        j@ == JsonView::Arr(enc_refs(refs_view(items@))),
{
    let mut out: Vec<Json> = Vec::new();
    let mut i: usize = 0;
    while i < items.len()
        invariant
            0 <= i <= items.len(),
            out@.len() == i as int,
            forall|k: int| 0 <= k < i ==> #[trigger] out@[k]@ == enc_person_ref(items@[k]@),
        decreases items.len() - i,
    {
        let v = json_person_ref(&items[i]);
        out.push(v);
        i = i + 1;
    }
    let r = Json::Arr(out);
    proof {
        lemma_arr_view(r);
        assert(items_view(r->Arr_0@) =~= enc_refs(refs_view(items@)));
    }
    r
}

/// Encodes a man-page reference to the shape it was chosen from.
fn json_man(m: &ManReference) -> (j: Json)
    ensures
        j@ == enc_man(m@),
{
    match m {
        ManReference::Single(s) => Json::Str(s.clone()),
        ManReference::Multiple(v) => json_strs(v),
    }
}

/// Encodes an optional man-page reference.
fn json_opt_man(o: &Option<ManReference>) -> (j: Json)
    ensures
        j@ == enc_opt_man(opt_man_view(*o)),
{
    match o {
        None => Json::Null,
        Some(m) => json_man(m),
    }
}

/// Encodes a repository.
fn json_repo(p: &Repository) -> (j: Json)
    ensures
        j@ == enc_repo(p@),
{
    let mut out: Vec<(String, Json)> = Vec::new();
    out.push(("type".to_string(), Json::Str(p.vcs.clone())));
    out.push(("url".to_string(), Json::Str(p.url.clone())));
    let r = Json::Obj(out);
    proof {
        lemma_obj_view(r);
        assert(fields_view(r->Obj_0@) =~= seq![
            ("type"@, JsonView::Str(p.vcs@)),
            ("url"@, JsonView::Str(p.url@)),
        ]);
    }
    r
}

/// Encodes a repository reference to the shape it was chosen from.
fn json_repo_ref(r: &RepositoryReference) -> (j: Json)
    ensures
        j@ == enc_repo_ref(r@),
{
    match r {
        RepositoryReference::Short(s) => Json::Str(s.clone()),
        RepositoryReference::Full(p) => json_repo(p),
    }
}

/// Encodes an optional repository reference.
fn json_opt_repo(o: &Option<RepositoryReference>) -> (j: Json)
    ensures
        j@ == enc_opt_repo(opt_repo_view(*o)),
{
    match o {
        None => Json::Null,
        Some(r) => json_repo_ref(r),
    }
}

impl Package {
    /// Encodes the manifest as a JSON tree.
    ///
    /// The tree holds every known field under its document name, in a fixed
    /// order, and then every catch-all entry verbatim.
    #[verifier::loop_isolation(false)]
    #[verifier::rlimit(60)]
    pub fn to_json(&self) -> (j: Json)
        ensures
            j@ == spec_encode(self@),
    {
        let mut out: Vec<(String, Json)> = Vec::new();
        out.push(("name".to_string(), Json::Str(self.name.clone())));
        out.push(("version".to_string(), Json::Str(self.version.clone())));
        out.push(("description".to_string(), json_opt_str(&self.description)));
        out.push(("keywords".to_string(), json_strs(&self.keywords)));
        out.push(("homepage".to_string(), json_opt_str(&self.homepage)));
        out.push(("bugs".to_string(), json_opt_bug(&self.bugs)));
        out.push(("license".to_string(), json_opt_str(&self.license)));
        out.push(("author".to_string(), json_opt_person_ref(&self.author)));
        out.push(("contributors".to_string(), json_refs(&self.contributors)));
        out.push(("files".to_string(), json_strs(&self.files)));
        out.push(("main".to_string(), json_opt_str(&self.main)));
        out.push(("browser".to_string(), json_opt_str(&self.browser)));
        out.push(("bin".to_string(), json_pairs(&self.bin)));
        out.push(("man".to_string(), json_opt_man(&self.man)));
        out.push(("repository".to_string(), json_opt_repo(&self.repository)));
        out.push(("scripts".to_string(), json_pairs(&self.scripts)));
        out.push(("dependencies".to_string(), json_pairs(&self.dependencies)));
        out.push(("devDependencies".to_string(), json_pairs(&self.dev_dependencies)));
        out.push(("peerDependencies".to_string(), json_pairs(&self.peer_dependencies)));
        out.push(("bundledDependencies".to_string(), json_pairs(&self.bundled_dependencies)));
        out.push(("optionalDependencies".to_string(), json_pairs(&self.optional_dependencies)));
        out.push(("engines".to_string(), json_pairs(&self.engines)));
        out.push(("private".to_string(), Json::Bool(self.private)));
        let ghost known = out@;
        let mut i: usize = 0;
        while i < self.others.len()
            invariant
                0 <= i <= self.others.len(),
                out@.len() == known.len() + i as int,
                out@.take(known.len() as int) == known,
                forall|k: int|
                    0 <= k < i ==> #[trigger] out@[known.len() + k].0@ == self.others@[k].0@
                        && out@[known.len() + k].1@ == self.others@[k].1@,
            decreases self.others.len() - i,
        {
            let k = self.others[i].0.clone();
            let v = crate::json::clone_json(&self.others[i].1);
            out.push((k, v));
            proof {
                assert(out@.take(known.len() as int) =~= known);
            }
            i = i + 1;
        }
        let r = Json::Obj(out);
        proof {
            lemma_obj_view(r);
            let goal = enc_known_fields(self@) + self@.others;
            assert(out@.len() == goal.len());
            assert forall|k: int| 0 <= k < out@.len() implies fields_view(out@)[k] == goal[k] by {
                if k < known.len() {
                    assert(out@[k] == out@.take(known.len() as int)[k]);
                    assert(goal[k] == enc_known_fields(self@)[k]);
                } else {
                    let rel: int = k - known.len();
                    assert(out@[known.len() + rel].0@ == self.others@[rel].0@);
                    assert(out@[known.len() + rel].1@ == self.others@[rel].1@);
                    assert(goal[k] == self@.others[rel]);
                }
            }
            assert(fields_view(r->Obj_0@) =~= goal);
        }
        r
    }
}

} // verus!