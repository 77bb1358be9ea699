//! The laws of the codec: round trips, catch-all preservation, shape
//! polymorphism, defaults, and rejection of malformed shapes.

use vstd::prelude::*;

use crate::decode::collect_others;
use crate::decode::dec_bug;
use crate::decode::dec_man_ref;
use crate::decode::dec_opt_str_field;
use crate::decode::dec_person;
use crate::decode::dec_person_ref;
use crate::decode::dec_refs;
use crate::decode::dec_repo;
use crate::decode::dec_repo_ref;
use crate::decode::dec_req_str_field;
use crate::decode::dec_str_pairs;
use crate::decode::dec_strs;
use crate::decode::is_known_key;
use crate::decode::spec_decode;
use crate::encode::enc_bug;
use crate::encode::enc_known_fields;
use crate::encode::enc_man;
use crate::encode::enc_pairs;
use crate::encode::enc_person;
use crate::encode::enc_person_ref;
use crate::encode::enc_refs;
use crate::encode::enc_repo;
use crate::encode::enc_repo_ref;
use crate::encode::enc_strs;
use crate::encode::spec_encode;
use crate::json::JsonView;
use crate::json::lemma_lookup_all_miss;
use crate::json::lemma_lookup_append;
use crate::json::lemma_lookup_first_hit;
use crate::json::spec_lookup;
use crate::model::BugView;
use crate::model::ManReferenceView;
use crate::model::PackageView;
use crate::model::PersonReferenceView;
use crate::model::PersonView;
use crate::model::RepositoryView;

verus! {

/// Encoded strings decode back to the same strings.
proof fn lemma_dec_strs_enc(ss: Seq<Seq<char>>)
    ensures
        dec_strs(enc_strs(ss)) == Some(ss),
    decreases ss.len(),
{
    if ss.len() == 0 {
        assert(enc_strs(ss) =~= Seq::<JsonView>::empty());
        assert(ss =~= Seq::<Seq<char>>::empty());
    } else {
        lemma_dec_strs_enc(ss.drop_last());
        assert(enc_strs(ss).drop_last() =~= enc_strs(ss.drop_last()));
        assert(enc_strs(ss).last() == JsonView::Str(ss.last()));
        assert(ss.drop_last().push(ss.last()) =~= ss);
    }
}

/// Encoded map entries decode back to the same entries.
proof fn lemma_dec_pairs_enc(m: Seq<(Seq<char>, Seq<char>)>)
    ensures
        dec_str_pairs(enc_pairs(m)) == Some(m),
    decreases m.len(),
{
    if m.len() == 0 {
        assert(enc_pairs(m) =~= Seq::<(Seq<char>, JsonView)>::empty());
        assert(m =~= Seq::<(Seq<char>, Seq<char>)>::empty());
    } else {
        lemma_dec_pairs_enc(m.drop_last());
        assert(enc_pairs(m).drop_last() =~= enc_pairs(m.drop_last()));
        assert(enc_pairs(m).last() == (m.last().0, JsonView::Str(m.last().1)));
        assert(m.drop_last().push((m.last().0, m.last().1)) =~= m);
    }
}

/// An encoded person decodes back to the same person.
proof fn lemma_dec_person_enc(p: PersonView)
    ensures
        dec_person(enc_person(p)) == Some(p),
{
    reveal_strlit("name");
    reveal_strlit("email");
    reveal_strlit("url");
    let e = enc_person(p)->Obj_0;
    assert(e[0].0 == "name"@ && e[1].0 == "email"@ && e[2].0 == "url"@);
    assert("name"@ != "email"@ && "name"@ != "url"@ && "email"@ != "url"@);
    lemma_lookup_first_hit(e, "name"@, 0);
    lemma_lookup_first_hit(e, "email"@, 1);
    lemma_lookup_first_hit(e, "url"@, 2);
}

/// An encoded bug form decodes back to the same form.
proof fn lemma_dec_bug_enc(b: BugView)
    ensures
        dec_bug(enc_bug(b)) == Some(b),
{
    reveal_strlit("email");
    reveal_strlit("url");
    let e = enc_bug(b)->Obj_0;
    assert(e[0].0 == "email"@ && e[1].0 == "url"@);
    assert("email"@ != "url"@);
    lemma_lookup_first_hit(e, "email"@, 0);
    lemma_lookup_first_hit(e, "url"@, 1);
}

/// An encoded person reference decodes back to the same reference.
proof fn lemma_dec_person_ref_enc(r: PersonReferenceView)
    ensures
        dec_person_ref(enc_person_ref(r)) == Some(r),
{
    match r {
        PersonReferenceView::Short(_) => {},
        PersonReferenceView::Full(p) => {
            lemma_dec_person_enc(p);
        },
    }
}

/// Encoded person references decode back to the same references.
proof fn lemma_dec_refs_enc(rs: Seq<PersonReferenceView>)
    ensures
        dec_refs(enc_refs(rs)) == Some(rs),
    decreases rs.len(),
{
    if rs.len() == 0 {
        assert(enc_refs(rs) =~= Seq::<JsonView>::empty());
        assert(rs =~= Seq::<PersonReferenceView>::empty());
    } else {
        lemma_dec_refs_enc(rs.drop_last());
        lemma_dec_person_ref_enc(rs.last());
        assert(enc_refs(rs).drop_last() =~= enc_refs(rs.drop_last()));
        assert(enc_refs(rs).last() == enc_person_ref(rs.last()));
        assert(rs.drop_last().push(rs.last()) =~= rs);
    }
}

/// An encoded man-page reference decodes back to the same reference.
proof fn lemma_dec_man_enc(m: ManReferenceView)
    ensures
        dec_man_ref(enc_man(m)) == Some(m),
{
    match m {
        ManReferenceView::Single(_) => {},
        ManReferenceView::Multiple(ss) => {
            lemma_dec_strs_enc(ss);
        },
    }
}

/// An encoded repository decodes back to the same repository.
proof fn lemma_dec_repo_enc(r: RepositoryView)
    ensures
        dec_repo(enc_repo(r)) == Some(r),
{
    reveal_strlit("type");
    reveal_strlit("url");
    let e = enc_repo(r)->Obj_0;
    assert(e[0].0 == "type"@ && e[1].0 == "url"@);
    assert("type"@ != "url"@);
    lemma_lookup_first_hit(e, "type"@, 0);
    lemma_lookup_first_hit(e, "url"@, 1);
}

/// An encoded repository reference decodes back to the same reference.
proof fn lemma_dec_repo_ref_enc(r: crate::model::RepositoryReferenceView)
    ensures
        dec_repo_ref(enc_repo_ref(r)) == Some(r),
{
    match r {
        crate::model::RepositoryReferenceView::Short(_) => {},
        crate::model::RepositoryReferenceView::Full(p) => {
            lemma_dec_repo_enc(p);
        },
    }
}

/// Two texts that differ at one position are different.
proof fn lemma_strne(a: Seq<char>, b: Seq<char>, i: int)
    requires
        0 <= i < a.len(),
        0 <= i < b.len(),
        a[i] != b[i],
    ensures
        a != b,
{
}

/// Entries that all carry known keys leave nothing for the catch-all.
proof fn lemma_collect_others_known(fields: Seq<(Seq<char>, JsonView)>)
    requires
        forall|i: int| 0 <= i < fields.len() ==> is_known_key(#[trigger] fields[i].0),
    ensures
        collect_others(fields) == Seq::<(Seq<char>, JsonView)>::empty(),
    decreases fields.len(),
{
    if fields.len() == 0 {
        assert(collect_others(fields) =~= Seq::<(Seq<char>, JsonView)>::empty());
    } else {
        lemma_collect_others_known(fields.drop_last());
        assert(collect_others(fields) =~= Seq::<(Seq<char>, JsonView)>::empty());
    }
}

/// Round trip on known fields: a manifest with an empty catch-all encodes
/// to a tree that decodes back to exactly the same manifest.
#[verifier::rlimit(100)]
#[verifier::spinoff_prover]
pub proof fn lemma_round_trip(p: PackageView)
    requires
        p.others.len() == 0,
    ensures
        spec_decode(spec_encode(p)) == Some(p),
{
    reveal_strlit("name");
    reveal_strlit("version");
    reveal_strlit("description");
    reveal_strlit("keywords");
    reveal_strlit("homepage");
    reveal_strlit("bugs");
    reveal_strlit("license");
    reveal_strlit("author");
    reveal_strlit("contributors");
    reveal_strlit("files");
    reveal_strlit("main");
    reveal_strlit("browser");
    reveal_strlit("bin");
    reveal_strlit("man");
    reveal_strlit("repository");
    reveal_strlit("scripts");
    reveal_strlit("dependencies");
    reveal_strlit("devDependencies");
    reveal_strlit("peerDependencies");
    reveal_strlit("bundledDependencies");
    reveal_strlit("optionalDependencies");
    reveal_strlit("engines");
    reveal_strlit("private");
    let kf = enc_known_fields(p);
    let f = kf + p.others;
    assert(f =~= kf);
    assert(kf[0].0 == "name"@ && kf[1].0 == "version"@ && kf[2].0 == "description"@ && kf[3].0
        == "keywords"@ && kf[4].0 == "homepage"@ && kf[5].0 == "bugs"@ && kf[6].0 == "license"@
        && kf[7].0 == "author"@ && kf[8].0 == "contributors"@ && kf[9].0 == "files"@ && kf[10].0
        == "main"@ && kf[11].0 == "browser"@ && kf[12].0 == "bin"@ && kf[13].0 == "man"@ && kf[14].0 == "repository"@ && kf[15].0 == "scripts"@ && kf[16].0 == "dependencies"@ && kf[17].0
        == "devDependencies"@ && kf[18].0 == "peerDependencies"@ && kf[19].0
        == "bundledDependencies"@ && kf[20].0 == "optionalDependencies"@ && kf[21].0
        == "engines"@ && kf[22].0 == "private"@);
    lemma_strne("name"@, "bugs"@, 0);
    lemma_strne("name"@, "main"@, 0);
    lemma_strne("bugs"@, "main"@, 0);
    lemma_strne("homepage"@, "keywords"@, 0);
    lemma_strne("version"@, "license"@, 0);
    lemma_strne("version"@, "browser"@, 0);
    lemma_strne("version"@, "scripts"@, 0);
    lemma_strne("version"@, "engines"@, 0);
    lemma_strne("version"@, "private"@, 0);
    lemma_strne("license"@, "browser"@, 0);
    lemma_strne("license"@, "scripts"@, 0);
    lemma_strne("license"@, "engines"@, 0);
    lemma_strne("license"@, "private"@, 0);
    lemma_strne("browser"@, "scripts"@, 0);
    lemma_strne("browser"@, "engines"@, 0);
    lemma_strne("browser"@, "private"@, 0);
    lemma_strne("scripts"@, "engines"@, 0);
    lemma_strne("scripts"@, "private"@, 0);
    lemma_strne("engines"@, "private"@, 0);
    lemma_strne("contributors"@, "dependencies"@, 0);
    lemma_strne("bin"@, "man"@, 0);
    lemma_lookup_first_hit(kf, "name"@, 0);
    lemma_lookup_first_hit(kf, "version"@, 1);
    lemma_lookup_first_hit(kf, "description"@, 2);
    lemma_lookup_first_hit(kf, "keywords"@, 3);
    lemma_lookup_first_hit(kf, "homepage"@, 4);
    lemma_lookup_first_hit(kf, "bugs"@, 5);
    lemma_lookup_first_hit(kf, "license"@, 6);
    lemma_lookup_first_hit(kf, "author"@, 7);
    lemma_lookup_first_hit(kf, "contributors"@, 8);
    lemma_lookup_first_hit(kf, "files"@, 9);
    lemma_lookup_first_hit(kf, "main"@, 10);
    lemma_lookup_first_hit(kf, "browser"@, 11);
    lemma_lookup_first_hit(kf, "bin"@, 12);
    lemma_lookup_first_hit(kf, "man"@, 13);
    lemma_lookup_first_hit(kf, "repository"@, 14);
    lemma_lookup_first_hit(kf, "scripts"@, 15);
    lemma_lookup_first_hit(kf, "dependencies"@, 16);
    lemma_lookup_first_hit(kf, "devDependencies"@, 17);
    lemma_lookup_first_hit(kf, "peerDependencies"@, 18);
    lemma_lookup_first_hit(kf, "bundledDependencies"@, 19);
    lemma_lookup_first_hit(kf, "optionalDependencies"@, 20);
    lemma_lookup_first_hit(kf, "engines"@, 21);
    lemma_lookup_first_hit(kf, "private"@, 22);
    lemma_dec_strs_enc(p.keywords);
    lemma_dec_strs_enc(p.files);
    lemma_dec_refs_enc(p.contributors);
    lemma_dec_pairs_enc(p.bin);
    lemma_dec_pairs_enc(p.scripts);
    lemma_dec_pairs_enc(p.dependencies);
    lemma_dec_pairs_enc(p.dev_dependencies);
    lemma_dec_pairs_enc(p.peer_dependencies);
    lemma_dec_pairs_enc(p.bundled_dependencies);
    lemma_dec_pairs_enc(p.optional_dependencies);
    lemma_dec_pairs_enc(p.engines);
    match p.bugs {
        None => {},
        Some(b) => {
            lemma_dec_bug_enc(b);
        },
    }
    match p.author {
        None => {},
        Some(r) => {
            lemma_dec_person_ref_enc(r);
        },
    }
    match p.man {
        None => {},
        Some(m) => {
            lemma_dec_man_enc(m);
        },
    }
    match p.repository {
        None => {},
        Some(r) => {
            lemma_dec_repo_ref_enc(r);
        },
    }
    assert forall|i: int| 0 <= i < kf.len() implies is_known_key(#[trigger] kf[i].0) by {}
    lemma_collect_others_known(kf);
    assert(p.others =~= Seq::<(Seq<char>, JsonView)>::empty());
    assert(spec_decode(spec_encode(p)) == Some(p));
}

/// The lookup of an unknown key passes through the catch-all collection.
proof fn lemma_lookup_collect(fields: Seq<(Seq<char>, JsonView)>, k: Seq<char>)
    requires
        !is_known_key(k),
    ensures
        spec_lookup(collect_others(fields), k) == spec_lookup(fields, k),
    decreases fields.len(),
{
    if fields.len() > 0 {
        let dl = fields.drop_last();
        let last = fields.last();
        lemma_lookup_collect(dl, k);
        assert(fields =~= dl + seq![last]);
        lemma_lookup_append(dl, seq![last], k);
        if is_known_key(last.0) {
            assert(collect_others(fields) =~= collect_others(dl));
            assert(last.0 != k);
            assert(seq![last][0].0 != k);
            lemma_lookup_all_miss(seq![last], k);
        } else {
            assert(collect_others(fields) =~= collect_others(dl) + seq![last]);
            lemma_lookup_append(collect_others(dl), seq![last], k);
        }
    }
}

/// Unknown-field preservation: when a document decodes, every top-level key
/// the model does not know is found again, with the same value, in what the
/// decoded manifest encodes to.
#[verifier::rlimit(100)]
#[verifier::spinoff_prover]
pub proof fn lemma_unknown_preserved(d: JsonView, k: Seq<char>)
    requires
        d is Obj,
        !is_known_key(k),
        spec_decode(d) is Some,
    ensures
        spec_encode(spec_decode(d)->0) is Obj,
        spec_lookup(spec_encode(spec_decode(d)->0)->Obj_0, k) == spec_lookup(d->Obj_0, k),
{
    let f = d->Obj_0;
    let m = spec_decode(d)->0;
    assert(m.others == collect_others(f));
    let kf = enc_known_fields(m);
    assert(kf[0].0 == "name"@ && kf[1].0 == "version"@ && kf[2].0 == "description"@ && kf[3].0
        == "keywords"@ && kf[4].0 == "homepage"@ && kf[5].0 == "bugs"@ && kf[6].0 == "license"@
        && kf[7].0 == "author"@ && kf[8].0 == "contributors"@ && kf[9].0 == "files"@ && kf[10].0
        == "main"@ && kf[11].0 == "browser"@ && kf[12].0 == "bin"@ && kf[13].0 == "man"@ && kf[14].0 == "repository"@ && kf[15].0 == "scripts"@ && kf[16].0 == "dependencies"@ && kf[17].0
        == "devDependencies"@ && kf[18].0 == "peerDependencies"@ && kf[19].0
        == "bundledDependencies"@ && kf[20].0 == "optionalDependencies"@ && kf[21].0
        == "engines"@ && kf[22].0 == "private"@);
    assert forall|i: int| 0 <= i < kf.len() implies #[trigger] kf[i].0 != k by {
        assert(is_known_key(kf[i].0));
    }
    lemma_lookup_all_miss(kf, k);
    lemma_lookup_append(kf, m.others, k);
    lemma_lookup_collect(f, k);
}

/// A non-string element anywhere makes the string sequence fail.
proof fn lemma_dec_strs_non_str(items: Seq<JsonView>, i: int)
    requires
        0 <= i < items.len(),
        !(items[i] is Str),
    ensures
        dec_strs(items) is None,
    decreases items.len(),
{
    if i < items.len() - 1 {
        assert(items.drop_last()[i] == items[i]);
        lemma_dec_strs_non_str(items.drop_last(), i);
    }
}

/// Shape polymorphism of the author field, string case: a JSON string
/// decodes to the short reference holding exactly that text.
pub proof fn lemma_author_short(d: JsonView, s: Seq<char>)
    requires
        d is Obj,
        spec_decode(d) is Some,
        spec_lookup(d->Obj_0, "author"@) == Some(JsonView::Str(s)),
    ensures
        spec_decode(d)->0.author == Some(PersonReferenceView::Short(s)),
{
}

/// Shape polymorphism of the author field, object case: a JSON object
/// decodes to the full reference, its sub-fields read from the object and
/// absent sub-fields left empty.
pub proof fn lemma_author_full(d: JsonView, e: Seq<(Seq<char>, JsonView)>)
    requires
        d is Obj,
        spec_decode(d) is Some,
        spec_lookup(d->Obj_0, "author"@) == Some(JsonView::Obj(e)),
    ensures
        spec_decode(d)->0.author == Some(
            PersonReferenceView::Full(
                PersonView {
                    name: dec_req_str_field(e, "name"@)->0,
                    email: dec_opt_str_field(e, "email"@)->0,
                    url: dec_opt_str_field(e, "url"@)->0,
                },
            ),
        ),
{
}

/// Shape polymorphism of the man field, string case: a JSON string decodes
/// to a single page reference holding exactly that text.
pub proof fn lemma_man_single(d: JsonView, s: Seq<char>)
    requires
        d is Obj,
        spec_decode(d) is Some,
        spec_lookup(d->Obj_0, "man"@) == Some(JsonView::Str(s)),
    ensures
        spec_decode(d)->0.man == Some(ManReferenceView::Single(s)),
{
}

/// Shape polymorphism of the man field, array case: an array of strings
/// decodes to the page list with the same texts in the same order.
pub proof fn lemma_man_multiple(d: JsonView, items: Seq<JsonView>)
    requires
        d is Obj,
        spec_decode(d) is Some,
        spec_lookup(d->Obj_0, "man"@) == Some(JsonView::Arr(items)),
    ensures
        dec_strs(items) is Some,
        spec_decode(d)->0.man == Some(ManReferenceView::Multiple(dec_strs(items)->0)),
{
}

/// Shape polymorphism of the man field, failure case: an array holding any
/// non-string element makes the whole decode fail.
pub proof fn lemma_man_bad_element(d: JsonView, items: Seq<JsonView>, i: int)
    requires
        d is Obj,
        spec_lookup(d->Obj_0, "man"@) == Some(JsonView::Arr(items)),
        0 <= i < items.len(),
        !(items[i] is Str),
    ensures
        spec_decode(d) is None,
{
    lemma_dec_strs_non_str(items, i);
}

/// Defaults on absence: a document that omits `keywords`, `dependencies`
/// and `private` decodes to the empty sequence, the empty mapping and
/// `false` for them.
pub proof fn lemma_defaults_on_absence(d: JsonView)
    requires
        d is Obj,
        spec_decode(d) is Some,
        spec_lookup(d->Obj_0, "keywords"@) is None,
        spec_lookup(d->Obj_0, "dependencies"@) is None,
        spec_lookup(d->Obj_0, "private"@) is None,
    ensures
        spec_decode(d)->0.keywords == Seq::<Seq<char>>::empty(),
        spec_decode(d)->0.dependencies == Seq::<(Seq<char>, Seq<char>)>::empty(),
        spec_decode(d)->0.private == false,
{
}

/// Malformed input: a document whose `repository` is a JSON number fails to
/// decode; it does not fall back to a default.
pub proof fn lemma_repository_number_fails(d: JsonView, t: Seq<char>)
    requires
        d is Obj,
        spec_lookup(d->Obj_0, "repository"@) == Some(JsonView::Num(t)),
    ensures
        spec_decode(d) is None,
{
}

} // verus!
