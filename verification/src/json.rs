//! The JSON value tree that manifest documents are modeled as.

use vstd::prelude::*;

verus! {

/// The mathematical model of a JSON value.
///
/// A number is modeled by the decimal text it was written with in the
/// document. The library never interprets number text; it only carries it
/// through, which is what makes round trips lossless.
pub enum JsonView {
    Null,
    Bool(bool),
    Num(Seq<char>),
    Str(Seq<char>),
    Arr(Seq<JsonView>),
    Obj(Seq<(Seq<char>, JsonView)>),
}

/// A JSON value.
///
/// Object entries keep the order in which they were built; the keys of an
/// object parsed from text are unique and sorted, but a hand-built value may
/// hold them in any order.
#[derive(Debug, PartialEq, Eq)]
pub enum Json {
    Null,
    Bool(bool),
    Num(String),
    Str(String),
    Arr(Vec<Json>),
    Obj(Vec<(String, Json)>),
}

impl Json {
    /// The abstract tree that this value stands for.
    pub open spec fn jview(self) -> JsonView
        decreases self,
    {
        match self {
            Json::Null => JsonView::Null,
            Json::Bool(b) => JsonView::Bool(b),
            Json::Num(s) => JsonView::Num(s@),
            Json::Str(s) => JsonView::Str(s@),
            Json::Arr(items) => JsonView::Arr(seq_jview(items@)),
            Json::Obj(fields) => JsonView::Obj(entries_jview(fields@)),
        }
    }
}

/// The views of a sequence of array elements, element by element.
pub open spec fn seq_jview(items: Seq<Json>) -> Seq<JsonView>
    decreases items,
{
    if items.len() == 0 {
        Seq::empty()
    } else {
        seq_jview(items.drop_last()).push(items.last().jview())
    }
}

/// The views of a sequence of object entries, entry by entry.
pub open spec fn entries_jview(fields: Seq<(String, Json)>) -> Seq<(Seq<char>, JsonView)>
    decreases fields,
{
    if fields.len() == 0 {
        Seq::empty()
    } else {
        entries_jview(fields.drop_last()).push(
            (fields.last().0@, fields.last().1.jview()),
        )
    }
}

/// `seq_jview` is the pointwise view of the elements.
pub proof fn lemma_seq_jview(items: Seq<Json>)
    ensures
        seq_jview(items).len() == items.len(),
        forall|i: int| 0 <= i < items.len() ==> seq_jview(items)[i] == #[trigger] items[i]@,
    decreases items,
{
    if items.len() > 0 {
        lemma_seq_jview(items.drop_last());
        assert forall|i: int| 0 <= i < items.len() implies seq_jview(items)[i] == items[i]@ by {
            if i < items.len() - 1 {
                assert(items.drop_last()[i] == items[i]);
            } else {
                assert(items.last() == items[i]);
            }
        }
    }
}

/// `entries_jview` is the pointwise view of the entries.
pub proof fn lemma_entries_jview(fields: Seq<(String, Json)>)
    ensures
        entries_jview(fields).len() == fields.len(),
        forall|i: int|
            0 <= i < fields.len() ==> entries_jview(fields)[i] == (
            #[trigger] fields[i].0@,
            fields[i].1@,
            ),
    decreases fields,
{
    if fields.len() > 0 {
        lemma_entries_jview(fields.drop_last());
        assert forall|i: int|
            0 <= i < fields.len() implies entries_jview(fields)[i] == (
            fields[i].0@,
            fields[i].1@,
            ) by {
            if i < fields.len() - 1 {
                assert(fields.drop_last()[i] == fields[i]);
            } else {
                assert(fields.last() == fields[i]);
            }
        }
    }
}

impl View for Json {
    type V = JsonView;

    open spec fn view(&self) -> JsonView {
        self.jview()
    }
}

/// The views of a sequence of array elements.
pub open spec fn items_view(items: Seq<Json>) -> Seq<JsonView> {
    Seq::new(items.len(), |i: int| items[i]@)
}

/// The views of a sequence of object entries.
pub open spec fn fields_view(fields: Seq<(String, Json)>) -> Seq<(Seq<char>, JsonView)> {
    Seq::new(fields.len(), |i: int| (fields[i].0@, fields[i].1@))
}

/// An array's view is the view of its elements.
pub proof fn lemma_arr_view(j: Json)
    ensures
        j matches Json::Arr(items) ==> j@ == JsonView::Arr(items_view(items@)),
{
    match j {
        Json::Arr(items) => {
            lemma_seq_jview(items@);
            assert(seq_jview(items@) =~= items_view(items@));
        },
        _ => {},
    }
}

/// An object's view is the view of its entries.
pub proof fn lemma_obj_view(j: Json)
    ensures
        j matches Json::Obj(fields) ==> j@ == JsonView::Obj(fields_view(fields@)),
{
    match j {
        Json::Obj(fields) => {
            lemma_entries_jview(fields@);
            assert(entries_jview(fields@) =~= fields_view(fields@));
        },
        _ => {},
    }
}

/// The value of the first entry of `fields` whose key is `key`, if any.
pub open spec fn spec_lookup(fields: Seq<(Seq<char>, JsonView)>, key: Seq<char>) -> Option<
    JsonView,
>
    decreases fields.len(),
{
    if fields.len() == 0 {
        None
    } else if fields[0].0 == key {
        Some(fields[0].1)
    } else {
        spec_lookup(fields.drop_first(), key)
    }
}

/// No entry of `fields` carries `key`, so the lookup misses.
pub proof fn lemma_lookup_all_miss(fields: Seq<(Seq<char>, JsonView)>, key: Seq<char>)
    requires
        forall|i: int| 0 <= i < fields.len() ==> #[trigger] fields[i].0 != key,
    ensures
        spec_lookup(fields, key) is None,
    decreases fields.len(),
{
    if fields.len() > 0 {
        lemma_lookup_all_miss(fields.drop_first(), key);
    }
}

/// The lookup returns the first entry that carries `key`.
pub proof fn lemma_lookup_first_hit(fields: Seq<(Seq<char>, JsonView)>, key: Seq<char>, n: int)
    requires
        0 <= n < fields.len(),
        fields[n].0 == key,
        forall|i: int| 0 <= i < n ==> #[trigger] fields[i].0 != key,
    ensures
        spec_lookup(fields, key) == Some(fields[n].1),
    decreases n,
{
    if n > 0 {
        lemma_lookup_first_hit(fields.drop_first(), key, n - 1);
    }
}

/// A lookup over appended entries takes the left part first.
pub proof fn lemma_lookup_append(
    left: Seq<(Seq<char>, JsonView)>,
    right: Seq<(Seq<char>, JsonView)>,
    key: Seq<char>,
)
    ensures
        spec_lookup(left + right, key) == if spec_lookup(left, key) is Some {
            spec_lookup(left, key)
        } else {
            spec_lookup(right, key)
        },
    decreases left.len(),
{
    if left.len() == 0 {
        assert(left + right =~= right);
    } else {
        assert((left + right).drop_first() =~= left.drop_first() + right);
        lemma_lookup_append(left.drop_first(), right, key);
    }
}

/// Whether two text slices hold the same characters.
///
/// Relies on `str`'s `PartialEq`: two string slices are equal exactly when
/// they consist of the same characters in the same order.
#[verifier::external_body]
pub(crate) fn str_eq(a: &str, b: &str) -> (r: bool)
    ensures
        r == (a@ == b@),
{
    a == b
}

/// Finds the first entry of `fields` whose key is `key`.
pub fn lookup<'a>(fields: &'a Vec<(String, Json)>, key: &str) -> (r: Option<&'a Json>)
    ensures
        match r {
            Some(v) => spec_lookup(fields_view(fields@), key@) == Some(v@),
            None => spec_lookup(fields_view(fields@), key@) is None,
        },
{
    let ghost fv = fields_view(fields@);
    proof {
        assert(fv.skip(0) =~= fv);
    }
    let mut i: usize = 0;
    while i < fields.len()
        invariant
            0 <= i <= fields.len(),
            fv == fields_view(fields@),
            spec_lookup(fv, key@) == spec_lookup(fv.skip(i as int), key@),
        decreases fields.len() - i,
    {
        if str_eq(fields[i].0.as_str(), key) {
            proof {
                assert(fv.skip(i as int)[0] == fv[i as int]);
            }
            return Some(&fields[i].1);
        }
        proof {
            assert(fv.skip(i as int).drop_first() =~= fv.skip(i as int + 1));
        }
        i = i + 1;
    }
    proof {
        assert(fv.skip(fields@.len() as int).len() == 0);
    }
    None
}

/// Copies a JSON value; the copy stands for the same tree.
#[verifier::loop_isolation(false)]
pub fn clone_json(j: &Json) -> (r: Json)
    ensures
        r@ == j@,
    decreases *j,
{
    match j {
        Json::Null => Json::Null,
        Json::Bool(b) => Json::Bool(*b),
        Json::Num(s) => Json::Num(s.clone()),
        Json::Str(s) => Json::Str(s.clone()),
        Json::Arr(items) => {
            let mut out: Vec<Json> = Vec::new();
            let mut i: usize = 0;
            while i < items.len()
                invariant
                    0 <= i <= items.len(),
                    out@.len() == i as int,
                    forall|k: int| 0 <= k < i ==> #[trigger] out@[k]@ == items@[k]@,
                decreases items.len() - i,
            {
                proof {
                    assert(j->Arr_0 == *items);
                    assert(decreases_to!(*j => j->Arr_0@[i as int]));
                }
                let c = clone_json(&items[i]);
                out.push(c);
                i = i + 1;
            }
            let r = Json::Arr(out);
            proof {
                lemma_arr_view(r);
                lemma_arr_view(*j);
                assert(items_view(out@) =~= items_view(items@));
            }
            r
        },
        Json::Obj(fields) => {
            let mut out: Vec<(String, Json)> = Vec::new();
            let mut i: usize = 0;
            while i < fields.len()
                invariant
                    0 <= i <= fields.len(),
                    out@.len() == i as int,
                    forall|k: int|
                        0 <= k < i ==> #[trigger] out@[k].0@ == fields@[k].0@ && out@[k].1@
                            == fields@[k].1@,
                decreases fields.len() - i,
            {
                proof {
                    assert(j->Obj_0 == *fields);
                    assert(decreases_to!(*j => j->Obj_0@[i as int].1));
                }
                let k = fields[i].0.clone();
                let c = clone_json(&fields[i].1);
                out.push((k, c));
                i = i + 1;
            }
            let r = Json::Obj(out);
            proof {
                lemma_obj_view(r);
                lemma_obj_view(*j);
                assert(fields_view(out@) =~= fields_view(fields@));
            }
            r
        },
    }
}

impl Clone for Json {
    /// The copy stands for the same tree as the original.
    fn clone(&self) -> (r: Json)
        ensures
            r@ == self@,
    {
        clone_json(self)
    }
}

} // verus!
