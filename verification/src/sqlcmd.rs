//! Builds parameterized SQL text for insert, update and delete. Table names
//! are embedded only after validation against `[A-Za-z0-9_]+`; column names
//! come from the request's key/value maps; every value is bound as a
//! positional parameter, never concatenated into the text.

use vstd::prelude::*;

use crate::json::{clone_json, views_of, views_of_pairs, JVal, Json};
use vstd::string::StringExecFns;

verus! {

/// `parts` joined by `sep`.
pub open spec fn joined(parts: Seq<Seq<char>>, sep: Seq<char>) -> Seq<char>
    decreases parts,
{
    if parts.len() == 0 {
        Seq::empty()
    } else if parts.len() == 1 {
        parts[0]
    } else {
        parts[0] + sep + joined(parts.drop_first(), sep)
    }
}

proof fn lemma_joined_snoc(parts: Seq<Seq<char>>, x: Seq<char>, sep: Seq<char>)
    ensures
        parts.len() == 0 ==> joined(parts.push(x), sep) == x,
        parts.len() > 0 ==> joined(parts.push(x), sep) == joined(parts, sep) + sep + x,
    decreases parts.len(),
{
    let pp = parts.push(x);
    if parts.len() == 0 {
        assert(pp.len() == 1);
        assert(pp[0] == x);
    } else {
        assert(pp[0] == parts[0]);
        assert(pp.drop_first() =~= parts.drop_first().push(x));
        lemma_joined_snoc(parts.drop_first(), x, sep);
        if parts.len() == 1 {
            assert(joined(pp, sep) == parts[0] + sep + x);
            assert(joined(parts, sep) == parts[0]);
        } else {
            assert(joined(pp, sep) == parts[0] + sep + (joined(parts.drop_first(), sep) + sep
                + x));
            assert(parts[0] + sep + (joined(parts.drop_first(), sep) + sep + x) =~= (parts[0]
                + sep + joined(parts.drop_first(), sep)) + sep + x);
        }
    }
}

/// The member names of an object, in order.
pub open spec fn keys_of(o: Seq<(Seq<char>, JVal)>) -> Seq<Seq<char>> {
    o.map_values(|p: (Seq<char>, JVal)| p.0)
}

/// The member values of an object, in order.
pub open spec fn vals_of(o: Seq<(Seq<char>, JVal)>) -> Seq<JVal> {
    o.map_values(|p: (Seq<char>, JVal)| p.1)
}

/// `n` positional placeholders.
pub open spec fn qmarks(n: nat) -> Seq<Seq<char>> {
    Seq::new(n, |i: int| "?"@)
}

/// `name = ?` for each name.
pub open spec fn eq_clauses(keys: Seq<Seq<char>>) -> Seq<Seq<char>> {
    keys.map_values(|k: Seq<char>| k + " = ?"@)
}

/// `INSERT INTO <table> (<columns>) VALUES (<placeholders>)`.
pub open spec fn insert_sql(table: Seq<char>, o: Seq<(Seq<char>, JVal)>) -> Seq<char> {
    "INSERT INTO "@ + table + " ("@ + joined(keys_of(o), ", "@) + ") VALUES ("@ + joined(
        qmarks(o.len()),
        ", "@,
    ) + ")"@
}

/// `UPDATE <table> SET <assignments> WHERE <predicates>`.
pub open spec fn update_sql(
    table: Seq<char>,
    data: Seq<(Seq<char>, JVal)>,
    conds: Seq<(Seq<char>, JVal)>,
) -> Seq<char> {
    "UPDATE "@ + table + " SET "@ + joined(eq_clauses(keys_of(data)), ", "@) + " WHERE "@
        + joined(eq_clauses(keys_of(conds)), " AND "@)
}

/// `DELETE FROM <table> WHERE <predicates>`.
pub open spec fn delete_sql(table: Seq<char>, conds: Seq<(Seq<char>, JVal)>) -> Seq<char> {
    "DELETE FROM "@ + table + " WHERE "@ + joined(eq_clauses(keys_of(conds)), " AND "@)
}

/// Appends the member names joined by `sep`.
fn append_columns(out: &mut String, fields: &Vec<(String, Json)>, sep: &str)
    ensures
        final(out)@ == old(out)@ + joined(keys_of(views_of_pairs(fields@)), sep@),
{
    let ghost keys = keys_of(views_of_pairs(fields@));
    let n = fields.len();
    let mut i: usize = 0;
    while i < n
        invariant
            n == fields@.len(),
            i <= n,
            keys == keys_of(views_of_pairs(fields@)),
            keys.len() == n,
            forall|j: int| 0 <= j < n ==> keys[j] == #[trigger] fields@[j].0@,
            out@ == old(out)@ + joined(keys.take(i as int), sep@),
        decreases n - i,
    {
        if i > 0 {
            out.append(sep);
        }
        out.append(fields[i].0.as_str());
        proof {
            lemma_joined_snoc(keys.take(i as int), keys[i as int], sep@);
            assert(keys.take(i + 1) =~= keys.take(i as int).push(keys[i as int]));
            if i == 0 {
                assert(old(out)@ + joined(keys.take(0), sep@) + keys[0] =~= old(out)@ + joined(
                    keys.take(1),
                    sep@,
                ));
            } else {
                assert(((old(out)@ + joined(keys.take(i as int), sep@)) + sep@) + keys[i as int]
                    =~= old(out)@ + (joined(keys.take(i as int), sep@) + sep@ + keys[i as int]));
            }
        }
        i = i + 1;
    }
    proof {
        assert(keys.take(n as int) =~= keys);
    }
}

/// Appends `name = ?` for each member, joined by `sep`.
fn append_eq_clauses(out: &mut String, fields: &Vec<(String, Json)>, sep: &str)
    ensures
        final(out)@ == old(out)@ + joined(eq_clauses(keys_of(views_of_pairs(fields@))), sep@),
{
    let ghost clauses = eq_clauses(keys_of(views_of_pairs(fields@)));
    let n = fields.len();
    let mut i: usize = 0;
    while i < n
        invariant
            n == fields@.len(),
            i <= n,
            clauses == eq_clauses(keys_of(views_of_pairs(fields@))),
            clauses.len() == n,
            forall|j: int| 0 <= j < n ==> clauses[j] == #[trigger] fields@[j].0@ + " = ?"@,
            out@ == old(out)@ + joined(clauses.take(i as int), sep@),
        decreases n - i,
    {
        if i > 0 {
            out.append(sep);
        }
        out.append(fields[i].0.as_str());
        out.append(" = ?");
        proof {
            lemma_joined_snoc(clauses.take(i as int), clauses[i as int], sep@);
            assert(clauses.take(i + 1) =~= clauses.take(i as int).push(clauses[i as int]));
            if i == 0 {
                assert(((old(out)@ + joined(clauses.take(0), sep@)) + fields@[0].0@) + " = ?"@
                    =~= old(out)@ + joined(clauses.take(1), sep@));
            } else {
                assert((((old(out)@ + joined(clauses.take(i as int), sep@)) + sep@)
                    + fields@[i as int].0@) + " = ?"@ =~= old(out)@ + (joined(
                    clauses.take(i as int),
                    sep@,
                ) + sep@ + clauses[i as int]));
            }
        }
        i = i + 1;
    }
    proof {
        assert(clauses.take(n as int) =~= clauses);
    }
}

/// Appends `n` placeholders joined by `sep`.
fn append_qmarks(out: &mut String, n: usize, sep: &str)
    ensures
        final(out)@ == old(out)@ + joined(qmarks(n as nat), sep@),
{
    let ghost marks = qmarks(n as nat);
    let mut i: usize = 0;
    while i < n
        invariant
            marks == qmarks(n as nat),
            marks.len() == n,
            i <= n,
            out@ == old(out)@ + joined(marks.take(i as int), sep@),
        decreases n - i,
    {
        if i > 0 {
            out.append(sep);
        }
        out.append("?");
        proof {
            lemma_joined_snoc(marks.take(i as int), marks[i as int], sep@);
            assert(marks.take(i + 1) =~= marks.take(i as int).push(marks[i as int]));
            if i == 0 {
                assert(old(out)@ + joined(marks.take(0), sep@) + "?"@ =~= old(out)@ + joined(
                    marks.take(1),
                    sep@,
                ));
            } else {
                assert(((old(out)@ + joined(marks.take(i as int), sep@)) + sep@) + "?"@ =~= old(
                    out,
                )@ + (joined(marks.take(i as int), sep@) + sep@ + marks[i as int]));
            }
        }
        i = i + 1;
    }
    proof {
        assert(marks.take(n as int) =~= marks);
    }
}

/// The member values, in order, as bind parameters.
pub fn collect_values(fields: &Vec<(String, Json)>) -> (r: Vec<Json>)
    ensures
        views_of(r@) == vals_of(views_of_pairs(fields@)),
{
    let n = fields.len();
    let mut out: Vec<Json> = Vec::new();
    let mut i: usize = 0;
    while i < n
        invariant
            n == fields@.len(),
            i <= n,
            out@.len() == i,
            forall|j: int| 0 <= j < i ==> #[trigger] out@[j].deep_view() == fields@[j].1.deep_view(),
        decreases n - i,
    {
        let c = clone_json(&fields[i].1);
        out.push(c);
        i = i + 1;
    }
    proof {
        assert forall|j: int| 0 <= j < out@.len() implies views_of(out@)[j] == vals_of(
            views_of_pairs(fields@),
        )[j] by {
            assert(out@[j].deep_view() == fields@[j].1.deep_view());
        }
        assert(views_of(out@) =~= vals_of(views_of_pairs(fields@)));
    }
    out
}

/// The insert statement text and its bind parameters, in column order.
pub fn build_insert(table: &str, data: &Vec<(String, Json)>) -> (r: (String, Vec<Json>))
    ensures
        r.0@ == insert_sql(table@, views_of_pairs(data@)),
        views_of(r.1@) == vals_of(views_of_pairs(data@)),
{
    let ghost o = views_of_pairs(data@);
    let mut sql = String::new();
    sql.append("INSERT INTO ");
    sql.append(table);
    sql.append(" (");
    append_columns(&mut sql, data, ", ");
    sql.append(") VALUES (");
    append_qmarks(&mut sql, data.len(), ", ");
    sql.append(")");
    proof {
        assert(((((((Seq::<char>::empty() + "INSERT INTO "@) + table@) + " ("@) + joined(
            keys_of(o),
            ", "@,
        )) + ") VALUES ("@) + joined(qmarks(o.len()), ", "@)) + ")"@ =~= insert_sql(table@, o));
    }
    let params = collect_values(data);
    (sql, params)
}

/// The update statement text and its bind parameters: the new values first,
/// then the condition values.
pub fn build_update(
    table: &str,
    data: &Vec<(String, Json)>,
    conds: &Vec<(String, Json)>,
) -> (r: (String, Vec<Json>))
    ensures
        r.0@ == update_sql(table@, views_of_pairs(data@), views_of_pairs(conds@)),
        views_of(r.1@) == vals_of(views_of_pairs(data@)) + vals_of(views_of_pairs(conds@)),
{
    let ghost d = views_of_pairs(data@);
    let ghost c = views_of_pairs(conds@);
    let mut sql = String::new();
    sql.append("UPDATE ");
    sql.append(table);
    sql.append(" SET ");
    append_eq_clauses(&mut sql, data, ", ");
    sql.append(" WHERE ");
    append_eq_clauses(&mut sql, conds, " AND ");
    proof {
        assert((((((Seq::<char>::empty() + "UPDATE "@) + table@) + " SET "@) + joined(
            eq_clauses(keys_of(d)),
            ", "@,
        )) + " WHERE "@) + joined(eq_clauses(keys_of(c)), " AND "@) =~= update_sql(table@, d, c));
    }
    let mut params = collect_values(data);
    let mut cond_params = collect_values(conds);
    let ghost first = params@;
    let ghost second = cond_params@;
    params.append(&mut cond_params);
    proof {
        assert forall|j: int| 0 <= j < params@.len() implies views_of(params@)[j] == (vals_of(d)
            + vals_of(c))[j] by {
            if j < first.len() {
                assert(params@[j] == first[j]);
                assert(views_of(first)[j] == vals_of(d)[j]);
            } else {
                assert(params@[j] == second[j - first.len()]);
                assert(views_of(second)[j - first.len()] == vals_of(c)[j - first.len()]);
            }
        }
        assert(views_of(params@) =~= vals_of(d) + vals_of(c));
    }
    (sql, params)
}

/// The delete statement text and its bind parameters, in condition order.
pub fn build_delete(table: &str, conds: &Vec<(String, Json)>) -> (r: (String, Vec<Json>))
    ensures
        r.0@ == delete_sql(table@, views_of_pairs(conds@)),
        views_of(r.1@) == vals_of(views_of_pairs(conds@)),
{
    let ghost c = views_of_pairs(conds@);
    let mut sql = String::new();
    sql.append("DELETE FROM ");
    sql.append(table);
    sql.append(" WHERE ");
    append_eq_clauses(&mut sql, conds, " AND ");
    proof {
        assert((((Seq::<char>::empty() + "DELETE FROM "@) + table@) + " WHERE "@) + joined(
            eq_clauses(keys_of(c)),
            " AND "@,
        ) =~= delete_sql(table@, c));
    }
    let params = collect_values(conds);
    (sql, params)
}

} // verus!
