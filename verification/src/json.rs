//! The JSON value model: every protocol message the server reads or writes is
//! one of these values, and every contract in the crate speaks of the
//! mathematical form `JVal`.

use vstd::prelude::*;
use vstd::string::StringExecFns;

verus! {

/// Mathematical JSON value. A number is an `Int`, a `UInt`, or `NumText`
/// (the decimal rendering of a number that fits neither, kept verbatim).
#[verifier::ext_equal]
pub enum JVal {
    Null,
    Bool(bool),
    Int(i64),
    UInt(u64),
    NumText(Seq<char>),
    Str(Seq<char>),
    Arr(Seq<JVal>),
    Obj(Seq<(Seq<char>, JVal)>),
}

/// Executable JSON value; its deep view is a `JVal`.
#[derive(Debug, PartialEq, Eq)]
pub enum Json {
    Null,
    Bool(bool),
    Int(i64),
    UInt(u64),
    NumText(String),
    Str(String),
    Arr(Vec<Json>),
    Obj(Vec<(String, Json)>),
}

impl DeepView for Json {
    type V = JVal;

    open spec fn deep_view(&self) -> JVal
        decreases self,
    {
        match self {
            Json::Null => JVal::Null,
            Json::Bool(b) => JVal::Bool(*b),
            Json::Int(i) => JVal::Int(*i),
            Json::UInt(u) => JVal::UInt(*u),
            Json::NumText(s) => JVal::NumText(s@),
            Json::Str(s) => JVal::Str(s@),
            Json::Arr(v) => JVal::Arr(views_of(v@)),
            Json::Obj(v) => JVal::Obj(views_of_pairs(v@)),
        }
    }
}

/// The element-wise views of a sequence of values.
pub open spec fn views_of(s: Seq<Json>) -> Seq<JVal>
    decreases s,
{
    Seq::new(
        s.len(),
        |i: int|
            if 0 <= i < s.len() {
                s[i].deep_view()
            } else {
                JVal::Null
            },
    )
}

/// The element-wise views of a sequence of object members.
pub open spec fn views_of_pairs(s: Seq<(String, Json)>) -> Seq<(Seq<char>, JVal)>
    decreases s,
{
    Seq::new(
        s.len(),
        |i: int|
            if 0 <= i < s.len() {
                (s[i].0@, s[i].1.deep_view())
            } else {
                (Seq::empty(), JVal::Null)
            },
    )
}

/// First-match lookup of a key in an object's member list.
pub open spec fn jlookup(o: Seq<(Seq<char>, JVal)>, k: Seq<char>) -> Option<JVal>
    decreases o.len(),
{
    if o.len() == 0 {
        None
    } else if o[0].0 == k {
        Some(o[0].1)
    } else {
        jlookup(o.drop_first(), k)
    }
}

proof fn lemma_jlookup_skip(o: Seq<(Seq<char>, JVal)>, k: Seq<char>, i: int)
    requires
        0 <= i <= o.len(),
        forall|j: int| 0 <= j < i ==> (#[trigger] o[j]).0 != k,
    ensures
        jlookup(o, k) == jlookup(o.skip(i), k),
    decreases i,
{
    if i > 0 {
        assert(o[0].0 != k);
        lemma_jlookup_skip(o.drop_first(), k, i - 1);
        assert(o.drop_first().skip(i - 1) =~= o.skip(i));
    } else {
        assert(o.skip(0) =~= o);
    }
}

/// Finds the first member named `key`, if any.
pub fn obj_get<'a>(fields: &'a Vec<(String, Json)>, key: &str) -> (r: Option<&'a Json>)
    ensures
        match r {
            Some(j) => jlookup(views_of_pairs(fields@), key@) == Some(j.deep_view()),
            None => jlookup(views_of_pairs(fields@), key@) is None,
        },
{
    let ghost pairs = views_of_pairs(fields@);
    let n = fields.len();
    let mut i: usize = 0;
    while i < n
        invariant
            n == fields@.len(),
            i <= n,
            pairs == views_of_pairs(fields@),
            pairs.len() == n,
            forall|j: int| 0 <= j < i ==> (#[trigger] pairs[j]).0 != key@,
        decreases n - i,
    {
        if crate::text::str_eq(fields[i].0.as_str(), key) {
            proof {
                lemma_jlookup_skip(pairs, key@, i as int);
                assert(pairs.skip(i as int)[0] == pairs[i as int]);
                assert(pairs[i as int] == (fields@[i as int].0@, fields@[i as int].1.deep_view()));
            }
            return Some(&fields[i].1);
        }
        proof {
            assert(pairs[i as int] == (fields@[i as int].0@, fields@[i as int].1.deep_view()));
        }
        i = i + 1;
    }
    proof {
        lemma_jlookup_skip(pairs, key@, n as int);
        assert(pairs.skip(n as int) =~= Seq::empty());
    }
    None
}

/// A structurally equal copy of a JSON value.
pub fn clone_json(v: &Json) -> (r: Json)
    ensures
        r.deep_view() == v.deep_view(),
    decreases v,
{
    match v {
        Json::Null => Json::Null,
        Json::Bool(b) => Json::Bool(*b),
        Json::Int(i) => Json::Int(*i),
        Json::UInt(u) => Json::UInt(*u),
        Json::NumText(s) => Json::NumText(s.clone()),
        Json::Str(s) => Json::Str(s.clone()),
        Json::Arr(items) => {
            let n = items.len();
            let mut out: Vec<Json> = Vec::new();
            let mut i: usize = 0;
            while i < n
                invariant
                    *v == Json::Arr(*items),
                    n == items@.len(),
                    i <= n,
                    out@.len() == i,
                    forall|j: int|
                        0 <= j < i ==> #[trigger] out@[j].deep_view() == items@[j].deep_view(),
                decreases n - i,
            {
                proof {
                    assert(decreases_to!(*v => v->Arr_0));
                    assert(v->Arr_0 == *items);
                    assert(decreases_to!(*items => items@));
                    assert(decreases_to!(items@ => items@[i as int]));
                }
                let c = clone_json(&items[i]);
                out.push(c);
                i = i + 1;
            }
            proof {
                assert forall|j: int| 0 <= j < out@.len() implies views_of(out@)[j] == views_of(
                    items@,
                )[j] by {
                    assert(out@[j].deep_view() == items@[j].deep_view());
                }
                assert(views_of(out@) =~= views_of(items@));
            }
            Json::Arr(out)
        },
        Json::Obj(fields) => {
            let n = fields.len();
            let mut out: Vec<(String, Json)> = Vec::new();
            let mut i: usize = 0;
            while i < n
                invariant
                    *v == Json::Obj(*fields),
                    n == fields@.len(),
                    i <= n,
                    out@.len() == i,
                    forall|j: int|
                        0 <= j < i ==> (#[trigger] out@[j]).0@ == fields@[j].0@
                            && out@[j].1.deep_view() == fields@[j].1.deep_view(),
                decreases n - i,
            {
                proof {
                    assert(decreases_to!(*v => v->Obj_0));
                    assert(v->Obj_0 == *fields);
                    assert(decreases_to!(*fields => fields@));
                    assert(decreases_to!(fields@ => fields@[i as int]));
                    assert(decreases_to!(fields@[i as int] => fields@[i as int].1));
                }
                let k = fields[i].0.clone();
                let c = clone_json(&fields[i].1);
                out.push((k, c));
                proof {
                    assert(out@[i as int].0@ == fields@[i as int].0@);
                    assert(out@[i as int].1.deep_view() == fields@[i as int].1.deep_view());
                }
                i = i + 1;
            }
            proof {
                assert forall|j: int| 0 <= j < out@.len() implies views_of_pairs(out@)[j]
                    == views_of_pairs(fields@)[j] by {
                    assert((out@[j]).0@ == fields@[j].0@ && out@[j].1.deep_view()
                        == fields@[j].1.deep_view());
                }
                assert(views_of_pairs(out@) =~= views_of_pairs(fields@));
            }
            Json::Obj(out)
        },
    }
}

/// The view of an optional value.
pub open spec fn opt_view(p: Option<Json>) -> Option<JVal> {
    match p {
        Some(j) => Some(j.deep_view()),
        None => None,
    }
}

/// A JSON string value copied from `s`.
pub fn jstr(s: &str) -> (r: Json)
    ensures
        r.deep_view() == JVal::Str(s@),
{
    Json::Str(String::from_str(s))
}

/// An object of one member.
pub fn obj1(k1: &str, v1: Json) -> (r: Json)
    ensures
        r.deep_view() == JVal::Obj(seq![(k1@, v1.deep_view())]),
{
    let ghost w1 = v1.deep_view();
    let mut f: Vec<(String, Json)> = Vec::new();
    f.push((String::from_str(k1), v1));
    proof {
        assert(views_of_pairs(f@) =~= seq![(k1@, w1)]);
    }
    Json::Obj(f)
}

/// An object of two members, in order.
pub fn obj2(k1: &str, v1: Json, k2: &str, v2: Json) -> (r: Json)
    ensures
        r.deep_view() == JVal::Obj(seq![(k1@, v1.deep_view()), (k2@, v2.deep_view())]),
{
    let ghost w1 = v1.deep_view();
    let ghost w2 = v2.deep_view();
    let mut f: Vec<(String, Json)> = Vec::new();
    f.push((String::from_str(k1), v1));
    f.push((String::from_str(k2), v2));
    proof {
        assert(views_of_pairs(f@) =~= seq![(k1@, w1), (k2@, w2)]);
    }
    Json::Obj(f)
}

/// An object of three members, in order.
pub fn obj3(k1: &str, v1: Json, k2: &str, v2: Json, k3: &str, v3: Json) -> (r: Json)
    ensures
        r.deep_view() == JVal::Obj(
            seq![(k1@, v1.deep_view()), (k2@, v2.deep_view()), (k3@, v3.deep_view())],
        ),
{
    let ghost w1 = v1.deep_view();
    let ghost w2 = v2.deep_view();
    let ghost w3 = v3.deep_view();
    let mut f: Vec<(String, Json)> = Vec::new();
    f.push((String::from_str(k1), v1));
    f.push((String::from_str(k2), v2));
    f.push((String::from_str(k3), v3));
    proof {
        assert(views_of_pairs(f@) =~= seq![(k1@, w1), (k2@, w2), (k3@, w3)]);
    }
    Json::Obj(f)
}

/// An array of one element.
pub fn arr1(v1: Json) -> (r: Json)
    ensures
        r.deep_view() == JVal::Arr(seq![v1.deep_view()]),
{
    let ghost w1 = v1.deep_view();
    let mut a: Vec<Json> = Vec::new();
    a.push(v1);
    proof {
        assert(views_of(a@) =~= seq![w1]);
    }
    Json::Arr(a)
}

} // verus!
