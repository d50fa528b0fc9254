//! JSON text emission. `json_text` is the compact rendering used for response
//! lines; `json_pretty` is the indented rendering used inside human-readable
//! result blocks. Both are spec functions over `JVal`, and the executable
//! writers are verified against them.

use vstd::prelude::*;

use crate::json::{JVal, Json};
use crate::text::{dec_of, dec_of_i64, push_char, append_u64, append_i64};
use vstd::string::StringExecFns;
use vstd::string::StrSliceExecFns;

verus! {

/// How one character appears inside a JSON string literal.
pub open spec fn esc_char(c: char) -> Seq<char> {
    match c {
        '"' => "\\\""@,
        '\\' => "\\\\"@,
        '\u{08}' => "\\b"@,
        '\u{0c}' => "\\f"@,
        '\n' => "\\n"@,
        '\r' => "\\r"@,
        '\t' => "\\t"@,
        '\u{00}' => "\\u0000"@,
        '\u{01}' => "\\u0001"@,
        '\u{02}' => "\\u0002"@,
        '\u{03}' => "\\u0003"@,
        '\u{04}' => "\\u0004"@,
        '\u{05}' => "\\u0005"@,
        '\u{06}' => "\\u0006"@,
        '\u{07}' => "\\u0007"@,
        '\u{0b}' => "\\u000b"@,
        '\u{0e}' => "\\u000e"@,
        '\u{0f}' => "\\u000f"@,
        '\u{10}' => "\\u0010"@,
        '\u{11}' => "\\u0011"@,
        '\u{12}' => "\\u0012"@,
        '\u{13}' => "\\u0013"@,
        '\u{14}' => "\\u0014"@,
        '\u{15}' => "\\u0015"@,
        '\u{16}' => "\\u0016"@,
        '\u{17}' => "\\u0017"@,
        '\u{18}' => "\\u0018"@,
        '\u{19}' => "\\u0019"@,
        '\u{1a}' => "\\u001a"@,
        '\u{1b}' => "\\u001b"@,
        '\u{1c}' => "\\u001c"@,
        '\u{1d}' => "\\u001d"@,
        '\u{1e}' => "\\u001e"@,
        '\u{1f}' => "\\u001f"@,
        _ => seq![c],
    }
}

fn append_esc_char(out: &mut String, c: char)
    ensures
        final(out)@ == old(out)@ + esc_char(c),
{
    match c {
        '"' => out.append("\\\""),
        '\\' => out.append("\\\\"),
        '\u{08}' => out.append("\\b"),
        '\u{0c}' => out.append("\\f"),
        '\n' => out.append("\\n"),
        '\r' => out.append("\\r"),
        '\t' => out.append("\\t"),
        '\u{00}' => out.append("\\u0000"),
        '\u{01}' => out.append("\\u0001"),
        '\u{02}' => out.append("\\u0002"),
        '\u{03}' => out.append("\\u0003"),
        '\u{04}' => out.append("\\u0004"),
        '\u{05}' => out.append("\\u0005"),
        '\u{06}' => out.append("\\u0006"),
        '\u{07}' => out.append("\\u0007"),
        '\u{0b}' => out.append("\\u000b"),
        '\u{0e}' => out.append("\\u000e"),
        '\u{0f}' => out.append("\\u000f"),
        '\u{10}' => out.append("\\u0010"),
        '\u{11}' => out.append("\\u0011"),
        '\u{12}' => out.append("\\u0012"),
        '\u{13}' => out.append("\\u0013"),
        '\u{14}' => out.append("\\u0014"),
        '\u{15}' => out.append("\\u0015"),
        '\u{16}' => out.append("\\u0016"),
        '\u{17}' => out.append("\\u0017"),
        '\u{18}' => out.append("\\u0018"),
        '\u{19}' => out.append("\\u0019"),
        '\u{1a}' => out.append("\\u001a"),
        '\u{1b}' => out.append("\\u001b"),
        '\u{1c}' => out.append("\\u001c"),
        '\u{1d}' => out.append("\\u001d"),
        '\u{1e}' => out.append("\\u001e"),
        '\u{1f}' => out.append("\\u001f"),
        _ => {
            push_char(out, c);
            proof {
                assert(old(out)@.push(c) =~= old(out)@ + seq![c]);
            }
        },
    }
}

/// The whole string body, character by character.
pub open spec fn esc_str(s: Seq<char>) -> Seq<char>
    decreases s.len(),
{
    if s.len() == 0 {
        Seq::empty()
    } else {
        esc_str(s.drop_last()) + esc_char(s.last())
    }
}

fn append_esc_str(out: &mut String, s: &str)
    ensures
        final(out)@ == old(out)@ + esc_str(s@),
{
    let len = s.unicode_len();
    let mut i: usize = 0;
    while i < len
        invariant
            len == s@.len(),
            i <= len,
            out@ == old(out)@ + esc_str(s@.take(i as int)),
        decreases len - i,
    {
        append_esc_char(out, s.get_char(i));
        proof {
            assert(s@.take(i + 1).drop_last() =~= s@.take(i as int));
            assert(s@.take(i + 1).last() == s@[i as int]);
            assert((old(out)@ + esc_str(s@.take(i as int))) + esc_char(s@[i as int]) =~= old(
                out,
            )@ + esc_str(s@.take(i + 1)));
        }
        i = i + 1;
    }
    proof {
        assert(s@.take(len as int) =~= s@);
    }
}

/// A JSON string literal: quote, escaped body, quote.
pub open spec fn jstr_text(s: Seq<char>) -> Seq<char> {
    "\""@ + esc_str(s) + "\""@
}

fn append_jstr(out: &mut String, s: &str)
    ensures
        final(out)@ == old(out)@ + jstr_text(s@),
{
    out.append("\"");
    append_esc_str(out, s);
    out.append("\"");
    proof {
        assert(((old(out)@ + "\""@) + esc_str(s@)) + "\""@ =~= old(out)@ + jstr_text(s@));
    }
}

/// Compact rendering of a JSON value.
pub open spec fn json_text(v: JVal) -> Seq<char>
    decreases v,
{
    match v {
        JVal::Null => "null"@,
        JVal::Bool(b) => if b {
            "true"@
        } else {
            "false"@
        },
        JVal::Int(i) => dec_of_i64(i as int),
        JVal::UInt(u) => dec_of(u as int),
        JVal::NumText(s) => s,
        JVal::Str(s) => jstr_text(s),
        JVal::Arr(a) => "["@ + items_text(a) + "]"@,
        JVal::Obj(o) => "{"@ + fields_text(o) + "}"@,
    }
}

/// Array elements joined by commas.
pub open spec fn items_text(a: Seq<JVal>) -> Seq<char>
    decreases a,
{
    if a.len() == 0 {
        Seq::empty()
    } else if a.len() == 1 {
        json_text(a[0])
    } else {
        json_text(a[0]) + ","@ + items_text(a.drop_first())
    }
}

/// Object members (`"key":value`) joined by commas.
pub open spec fn fields_text(o: Seq<(Seq<char>, JVal)>) -> Seq<char>
    decreases o,
{
    if o.len() == 0 {
        Seq::empty()
    } else if o.len() == 1 {
        jstr_text(o[0].0) + ":"@ + json_text(o[0].1)
    } else {
        jstr_text(o[0].0) + ":"@ + json_text(o[0].1) + ","@ + fields_text(o.drop_first())
    }
}

proof fn lemma_items_snoc(a: Seq<JVal>, x: JVal)
    ensures
        a.len() == 0 ==> items_text(a.push(x)) == json_text(x),
        a.len() > 0 ==> items_text(a.push(x)) == items_text(a) + ","@ + json_text(x),
    decreases a.len(),
{
    let ap = a.push(x);
    if a.len() == 0 {
        assert(ap.len() == 1);
        assert(ap[0] == x);
    } else {
        assert(ap[0] == a[0]);
        assert(ap.drop_first() =~= a.drop_first().push(x));
        lemma_items_snoc(a.drop_first(), x);
        if a.len() == 1 {
            assert(items_text(ap) == json_text(a[0]) + ","@ + json_text(x));
            assert(items_text(a) == json_text(a[0]));
        } else {
            assert(items_text(ap) == json_text(a[0]) + ","@ + (items_text(a.drop_first())
                + ","@ + json_text(x)));
            assert(json_text(a[0]) + ","@ + (items_text(a.drop_first()) + ","@ + json_text(
                x,
            )) =~= (json_text(a[0]) + ","@ + items_text(a.drop_first())) + ","@ + json_text(
                x,
            ));
        }
    }
}

proof fn lemma_fields_snoc(o: Seq<(Seq<char>, JVal)>, k: Seq<char>, x: JVal)
    ensures
        o.len() == 0 ==> fields_text(o.push((k, x))) == jstr_text(k) + ":"@ + json_text(x),
        o.len() > 0 ==> fields_text(o.push((k, x))) == fields_text(o) + ","@ + jstr_text(k)
            + ":"@ + json_text(x),
    decreases o.len(),
{
    let op = o.push((k, x));
    if o.len() == 0 {
        assert(op.len() == 1);
        assert(op[0] == (k, x));
    } else {
        assert(op[0] == o[0]);
        assert(op.drop_first() =~= o.drop_first().push((k, x)));
        lemma_fields_snoc(o.drop_first(), k, x);
        let head = jstr_text(o[0].0) + ":"@ + json_text(o[0].1);
        let entry = jstr_text(k) + ":"@ + json_text(x);
        if o.len() == 1 {
            assert(fields_text(op) == head + ","@ + entry);
            assert(fields_text(o) == head);
        } else {
            assert(fields_text(op) == head + ","@ + (fields_text(o.drop_first()) + ","@
                + entry));
            assert(head + ","@ + (fields_text(o.drop_first()) + ","@ + entry) =~= (head
                + ","@ + fields_text(o.drop_first())) + ","@ + entry);
            assert(fields_text(o) + ","@ + entry == (head + ","@ + fields_text(
                o.drop_first(),
            )) + ","@ + entry);
        }
    }
}

/// Writes the compact JSON rendering of `v` onto `out`.
pub fn append_json(out: &mut String, v: &Json)
    ensures
        final(out)@ == old(out)@ + json_text(v.deep_view()),
    decreases v,
{
    match v {
        Json::Null => out.append("null"),
        Json::Bool(b) => {
            if *b {
                out.append("true")
            } else {
                out.append("false")
            }
        },
        Json::Int(i) => append_i64(out, *i),
        Json::UInt(u) => append_u64(out, *u),
        Json::NumText(s) => out.append(s.as_str()),
        Json::Str(s) => append_jstr(out, s.as_str()),
        Json::Arr(items) => {
            let ghost elems = crate::json::views_of(items@);
            proof {
                assert(v.deep_view() == JVal::Arr(elems));
            }
            out.append("[");
            let n = items.len();
            let ghost base = out@;
            let mut i: usize = 0;
            while i < n
                invariant
                    *v == Json::Arr(*items),
                    n == items@.len(),
                    i <= n,
                    elems.len() == n,
                    forall|j: int| 0 <= j < n ==> elems[j] == #[trigger] items@[j].deep_view(),
                    out@ == base + items_text(elems.take(i as int)),
                decreases n - i,
            {
                if i > 0 {
                    out.append(",");
                }
                proof {
                    assert(decreases_to!(*v => v->Arr_0));
                    assert(v->Arr_0 == *items);
                    assert(decreases_to!(*items => items@));
                    assert(decreases_to!(items@ => items@[i as int]));
                }
                append_json(out, &items[i]);
                proof {
                    lemma_items_snoc(elems.take(i as int), elems[i as int]);
                    assert(elems.take(i + 1) =~= elems.take(i as int).push(elems[i as int]));
                    if i == 0 {
                        assert(base + items_text(elems.take(0)) + json_text(elems[0]) =~= base
                            + items_text(elems.take(1)));
                    } else {
                        assert(((base + items_text(elems.take(i as int))) + ","@) + json_text(
                            elems[i as int],
                        ) =~= base + (items_text(elems.take(i as int)) + ","@ + json_text(
                            elems[i as int],
                        )));
                    }
                }
                i = i + 1;
            }
            out.append("]");
            proof {
                assert(elems.take(n as int) =~= elems);
                assert(((old(out)@ + "["@) + items_text(elems)) + "]"@ =~= old(out)@ + ("["@
                    + items_text(elems) + "]"@));
            }
        },
        Json::Obj(fields) => {
            let ghost pairs = crate::json::views_of_pairs(fields@);
            proof {
                assert(v.deep_view() == JVal::Obj(pairs));
            }
            out.append("{");
            let n = fields.len();
            let ghost base = out@;
            let mut i: usize = 0;
            while i < n
                invariant
                    *v == Json::Obj(*fields),
                    n == fields@.len(),
                    i <= n,
                    pairs.len() == n,
                    forall|j: int|
                        0 <= j < n ==> #[trigger] pairs[j] == (
                            fields@[j].0@,
                            fields@[j].1.deep_view(),
                        ),
                    out@ == base + fields_text(pairs.take(i as int)),
                decreases n - i,
            {
                if i > 0 {
                    out.append(",");
                }
                append_jstr(out, fields[i].0.as_str());
                out.append(":");
                proof {
                    assert(decreases_to!(*v => v->Obj_0));
                    assert(v->Obj_0 == *fields);
                    assert(decreases_to!(*fields => fields@));
                    assert(decreases_to!(fields@ => fields@[i as int]));
                    assert(decreases_to!(fields@[i as int] => fields@[i as int].1));
                }
                append_json(out, &fields[i].1);
                proof {
                    lemma_fields_snoc(pairs.take(i as int), pairs[i as int].0, pairs[i as int].1);
                    assert(pairs.take(i + 1) =~= pairs.take(i as int).push(pairs[i as int]));
                    let entry = jstr_text(pairs[i as int].0) + ":"@ + json_text(
                        pairs[i as int].1,
                    );
                    if i == 0 {
                        assert(((base + jstr_text(pairs[0].0)) + ":"@) + json_text(pairs[0].1)
                            =~= base + fields_text(pairs.take(1)));
                    } else {
                        assert(((((base + fields_text(pairs.take(i as int))) + ","@)
                            + jstr_text(pairs[i as int].0)) + ":"@) + json_text(
                            pairs[i as int].1,
                        ) =~= base + (fields_text(pairs.take(i as int)) + ","@ + entry));
                    }
                }
                i = i + 1;
            }
            out.append("}");
            proof {
                assert(pairs.take(n as int) =~= pairs);
                assert(((old(out)@ + "{"@) + fields_text(pairs)) + "}"@ =~= old(out)@ + ("{"@
                    + fields_text(pairs) + "}"@));
            }
        },
    }
}

/// The compact JSON rendering of `v` as a fresh string.
pub fn json_to_string(v: &Json) -> (r: String)
    ensures
        r@ == json_text(v.deep_view()),
{
    let mut out = String::new();
    append_json(&mut out, v);
    proof {
        assert(Seq::<char>::empty() + json_text(v.deep_view()) =~= json_text(v.deep_view()));
    }
    out
}

/// `n` space characters.
pub open spec fn spaces(n: nat) -> Seq<char>
    decreases n,
{
    if n == 0 {
        Seq::empty()
    } else {
        spaces((n - 1) as nat) + " "@
    }
}

/// Indented rendering of a JSON value at nesting depth `ind`: arrays and
/// objects put each element on its own line, indented two spaces per level;
/// scalars render as in `json_text`.
pub open spec fn json_pretty(v: JVal, ind: nat) -> Seq<char>
    decreases v,
{
    match v {
        JVal::Arr(a) => if a.len() == 0 {
            "[]"@
        } else {
            "[\n"@ + pretty_items(a, ind + 1) + "\n"@ + spaces(2 * ind) + "]"@
        },
        JVal::Obj(o) => if o.len() == 0 {
            "{}"@
        } else {
            "{\n"@ + pretty_fields(o, ind + 1) + "\n"@ + spaces(2 * ind) + "}"@
        },
        _ => json_text(v),
    }
}

pub open spec fn pretty_items(a: Seq<JVal>, ind: nat) -> Seq<char>
    decreases a,
{
    if a.len() == 0 {
        Seq::empty()
    } else if a.len() == 1 {
        spaces(2 * ind) + json_pretty(a[0], ind)
    } else {
        spaces(2 * ind) + json_pretty(a[0], ind) + ",\n"@ + pretty_items(a.drop_first(), ind)
    }
}

pub open spec fn pretty_fields(o: Seq<(Seq<char>, JVal)>, ind: nat) -> Seq<char>
    decreases o,
{
    if o.len() == 0 {
        Seq::empty()
    } else if o.len() == 1 {
        spaces(2 * ind) + jstr_text(o[0].0) + ": "@ + json_pretty(o[0].1, ind)
    } else {
        spaces(2 * ind) + jstr_text(o[0].0) + ": "@ + json_pretty(o[0].1, ind) + ",\n"@
            + pretty_fields(o.drop_first(), ind)
    }
}

proof fn lemma_concat_assoc(p: Seq<char>, q: Seq<char>, r: Seq<char>)
    ensures
        p + (q + r) == (p + q) + r,
{
    assert(p + (q + r) =~= (p + q) + r);
}

#[verifier::rlimit(100)]
proof fn lemma_pretty_items_snoc(a: Seq<JVal>, x: JVal, ind: nat)
    ensures
        a.len() == 0 ==> pretty_items(a.push(x), ind) == spaces(2 * ind) + json_pretty(x, ind),
        a.len() > 0 ==> pretty_items(a.push(x), ind) == pretty_items(a, ind) + ",\n"@ + spaces(
            2 * ind,
        ) + json_pretty(x, ind),
    decreases a.len(),
{
    let ap = a.push(x);
    if a.len() == 0 {
        assert(ap.len() == 1);
        assert(ap[0] == x);
    } else {
        assert(ap[0] == a[0]);
        assert(ap.drop_first() =~= a.drop_first().push(x));
        lemma_pretty_items_snoc(a.drop_first(), x, ind);
        let head = spaces(2 * ind) + json_pretty(a[0], ind);
        let entry = spaces(2 * ind) + json_pretty(x, ind);
        let rest = pretty_items(a.drop_first(), ind);
        if a.len() == 1 {
            assert(pretty_items(ap, ind) == head + ",\n"@ + entry);
            assert(pretty_items(a, ind) == head);
        } else {
            assert(pretty_items(ap, ind) == head + ",\n"@ + (rest + ",\n"@ + entry));
            lemma_concat_assoc(head + ",\n"@, rest + ",\n"@, entry);
            lemma_concat_assoc(head + ",\n"@, rest, ",\n"@);
            assert((head + ",\n"@ + rest) + ",\n"@ + entry == pretty_items(a, ind) + ",\n"@
                + entry);
        }
    }
}

#[verifier::rlimit(50)]
proof fn lemma_pretty_fields_snoc(o: Seq<(Seq<char>, JVal)>, k: Seq<char>, x: JVal, ind: nat)
    ensures
        o.len() == 0 ==> pretty_fields(o.push((k, x)), ind) == spaces(2 * ind) + jstr_text(k)
            + ": "@ + json_pretty(x, ind),
        o.len() > 0 ==> pretty_fields(o.push((k, x)), ind) == pretty_fields(o, ind) + ",\n"@
            + spaces(2 * ind) + jstr_text(k) + ": "@ + json_pretty(x, ind),
    decreases o.len(),
{
    let op = o.push((k, x));
    if o.len() == 0 {
        assert(op.len() == 1);
        assert(op[0] == (k, x));
    } else {
        assert(op[0] == o[0]);
        assert(op.drop_first() =~= o.drop_first().push((k, x)));
        lemma_pretty_fields_snoc(o.drop_first(), k, x, ind);
        let head = spaces(2 * ind) + jstr_text(o[0].0) + ": "@ + json_pretty(o[0].1, ind);
        let entry = spaces(2 * ind) + jstr_text(k) + ": "@ + json_pretty(x, ind);
        if o.len() == 1 {
            assert(pretty_fields(op, ind) == head + ",\n"@ + entry);
            assert(pretty_fields(o, ind) == head);
        } else {
            assert(pretty_fields(op, ind) == head + ",\n"@ + (pretty_fields(
                o.drop_first(),
                ind,
            ) + ",\n"@ + entry));
            assert(head + ",\n"@ + (pretty_fields(o.drop_first(), ind) + ",\n"@ + entry) =~= (
            head + ",\n"@ + pretty_fields(o.drop_first(), ind)) + ",\n"@ + entry);
        }
    }
}

proof fn lemma_small_spaces()
    ensures
        spaces(0) == Seq::<char>::empty(),
        spaces(2) == "  "@,
        spaces(4) == "    "@,
{
    reveal_strlit(" ");
    reveal_strlit("  ");
    reveal_strlit("    ");
    reveal_with_fuel(spaces, 6);
    assert(spaces(1) =~= " "@);
    assert(spaces(2) =~= "  "@);
    assert(spaces(3) =~= spaces(2) + " "@);
    assert(spaces(4) =~= "    "@);
}

/// A scalar: neither an array nor an object.
pub open spec fn is_scalar(v: JVal) -> bool {
    !(v is Arr) && !(v is Obj)
}

/// Every member value in the field list is a scalar.
pub open spec fn flat_fields(o: Seq<(Seq<char>, JVal)>) -> bool {
    forall|j: int| 0 <= j < o.len() ==> #[trigger] is_scalar(o[j].1)
}

/// An object all of whose member values are scalars.
pub open spec fn is_flat_obj(v: JVal) -> bool {
    v matches JVal::Obj(o) && flat_fields(o)
}

/// Writes the indented rendering of one flat object at depth 1.
fn append_flat_obj_pretty(out: &mut String, v: &Json)
    requires
        is_flat_obj(v.deep_view()),
    ensures
        final(out)@ == old(out)@ + json_pretty(v.deep_view(), 1),
{
    match v {
        Json::Obj(fields) => {
            let ghost pairs = crate::json::views_of_pairs(fields@);
            proof {
                assert(v.deep_view() == JVal::Obj(pairs));
            }
            let n = fields.len();
            if n == 0 {
                out.append("{}");
                return ;
            }
            out.append("{\n");
            let ghost base = out@;
            let mut i: usize = 0;
            while i < n
                invariant
                    *v == Json::Obj(*fields),
                    i <= n,
                    n == fields@.len(),
                    n > 0,
                    pairs == crate::json::views_of_pairs(fields@),
                    pairs.len() == n,
                    flat_fields(pairs),
                    forall|j: int|
                        0 <= j < n ==> #[trigger] pairs[j] == (
                            fields@[j].0@,
                            fields@[j].1.deep_view(),
                        ),
                    out@ == base + pretty_fields(pairs.take(i as int), 2),
                decreases n - i,
            {
                if i > 0 {
                    out.append(",\n");
                }
                out.append("    ");
                append_jstr(out, fields[i].0.as_str());
                out.append(": ");
                append_json(out, &fields[i].1);
                proof {
                    lemma_small_spaces();
                    assert(pairs[i as int].1 == fields@[i as int].1.deep_view());
                    assert(is_scalar(pairs[i as int].1));
                    assert(json_text(pairs[i as int].1) == json_pretty(pairs[i as int].1, 2));
                    lemma_pretty_fields_snoc(
                        pairs.take(i as int),
                        pairs[i as int].0,
                        pairs[i as int].1,
                        2,
                    );
                    assert(pairs.take(i + 1) =~= pairs.take(i as int).push(pairs[i as int]));
                    let entry = spaces(4) + jstr_text(pairs[i as int].0) + ": "@ + json_pretty(
                        pairs[i as int].1,
                        2,
                    );
                    if i == 0 {
                        assert((((base + "    "@) + jstr_text(pairs[0].0)) + ": "@) + json_text(
                            pairs[0].1,
                        ) =~= base + entry);
                        assert(base + entry == base + pretty_fields(pairs.take(1), 2));
                    } else {
                        assert((((((base + pretty_fields(pairs.take(i as int), 2)) + ",\n"@)
                            + "    "@) + jstr_text(pairs[i as int].0)) + ": "@) + json_text(
                            pairs[i as int].1,
                        ) =~= base + (pretty_fields(pairs.take(i as int), 2) + ",\n"@ + entry));
                    }
                }
                i = i + 1;
            }
            out.append("\n  }");
            proof {
                lemma_small_spaces();
                reveal_strlit("\n  }");
                reveal_strlit("\n");
                reveal_strlit("  ");
                reveal_strlit("}");
                reveal_strlit("{\n");
                assert(pairs.take(n as int) =~= pairs);
                assert("\n  }"@ =~= "\n"@ + spaces(2) + "}"@);
                assert(((old(out)@ + "{\n"@) + pretty_fields(pairs, 2)) + ("\n"@ + spaces(2)
                    + "}"@) =~= old(out)@ + ("{\n"@ + pretty_fields(pairs, 2) + "\n"@ + spaces(2)
                    + "}"@));
            }
        },
        _ => {
            proof {
                assert(false);
            }
        },
    }
}

/// Writes the indented rendering of a list of flat row objects at depth 0.
pub fn append_rows_pretty(out: &mut String, rows: &Vec<Json>)
    requires
        forall|i: int| 0 <= i < rows@.len() ==> is_flat_obj(#[trigger] rows@[i].deep_view()),
    ensures
        final(out)@ == old(out)@ + json_pretty(JVal::Arr(crate::json::views_of(rows@)), 0),
{
    let ghost elems = crate::json::views_of(rows@);
    let n = rows.len();
    if n == 0 {
        out.append("[]");
        return ;
    }
    out.append("[\n");
    let ghost base = out@;
    let mut i: usize = 0;
    while i < n
        invariant
            n == rows@.len(),
            n > 0,
            i <= n,
            elems == crate::json::views_of(rows@),
            elems.len() == n,
            forall|j: int| 0 <= j < n ==> is_flat_obj(#[trigger] rows@[j].deep_view()),
            forall|j: int| 0 <= j < n ==> elems[j] == #[trigger] rows@[j].deep_view(),
            out@ == base + pretty_items(elems.take(i as int), 1),
        decreases n - i,
    {
        if i > 0 {
            out.append(",\n");
        }
        out.append("  ");
        append_flat_obj_pretty(out, &rows[i]);
        proof {
            lemma_small_spaces();
            lemma_pretty_items_snoc(elems.take(i as int), elems[i as int], 1);
            assert(elems.take(i + 1) =~= elems.take(i as int).push(elems[i as int]));
            let entry = spaces(2) + json_pretty(elems[i as int], 1);
            if i == 0 {
                assert((base + "  "@) + json_pretty(elems[0], 1) =~= base + entry);
                assert(base + entry == base + pretty_items(elems.take(1), 1));
            } else {
                assert((((base + pretty_items(elems.take(i as int), 1)) + ",\n"@) + "  "@)
                    + json_pretty(elems[i as int], 1) =~= base + (pretty_items(
                    elems.take(i as int),
                    1,
                ) + ",\n"@ + entry));
            }
        }
        i = i + 1;
    }
    out.append("\n]");
    proof {
        lemma_small_spaces();
        reveal_strlit("\n]");
        reveal_strlit("\n");
        reveal_strlit("]");
        assert(elems.take(n as int) =~= elems);
        assert("\n]"@ =~= "\n"@ + spaces(0) + "]"@);
        assert(((old(out)@ + "[\n"@) + pretty_items(elems, 1)) + ("\n"@ + spaces(0) + "]"@) =~=
        old(out)@ + ("[\n"@ + pretty_items(elems, 1) + "\n"@ + spaces(0) + "]"@));
    }
}

} // verus!
