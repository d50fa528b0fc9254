//! Schema introspection: the catalog statements for one table, the assembly
//! of a structured description from catalog rows, and the all-tables scan
//! that keeps partial results when single tables fail.

use vstd::prelude::*;

use crate::json::{views_of, views_of_pairs, jstr, obj2, arr1, JVal, Json};
use crate::rpc::{err_response_jval, error_response, ok_response_jval, Response, INTERNAL_ERROR};
use crate::text::{is_valid_table_name, str_eq, valid_table_name};
use vstd::string::StringExecFns;

verus! {

/// The statement that checks a table exists in the active catalog.
pub open spec fn exists_sql_text(t: Seq<char>) -> Seq<char> {
    "SELECT * FROM information_schema.tables WHERE table_name = '"@ + t
        + "' AND table_schema = DATABASE()"@
}

/// The statement that lists a table's columns in declaration order.
pub open spec fn columns_sql_text(t: Seq<char>) -> Seq<char> {
    "SELECT column_name, data_type, is_nullable, column_default, column_key, extra, column_comment FROM information_schema.columns WHERE table_name = '"@
        + t + "' AND table_schema = DATABASE() ORDER BY ordinal_position"@
}

/// The statement that lists a table's indexes.
pub open spec fn indexes_sql_text(t: Seq<char>) -> Seq<char> {
    "SHOW INDEX FROM `"@ + t + "`"@
}

/// The three catalog statements for one table, built only for a name that
/// passed the identifier gate: the name is embedded as literal SQL text, so
/// an unvalidated name never reaches a statement.
pub fn catalog_queries(t: &str) -> (r: Option<(String, String, String)>)
    ensures
        r is Some <==> is_valid_table_name(t@),
        r matches Some(q) ==> q.0@ == exists_sql_text(t@) && q.1@ == columns_sql_text(t@)
            && q.2@ == indexes_sql_text(t@),
{
    if !valid_table_name(t) {
        return None;
    }
    let mut q1 = String::new();
    q1.append("SELECT * FROM information_schema.tables WHERE table_name = '");
    q1.append(t);
    q1.append("' AND table_schema = DATABASE()");
    let mut q2 = String::new();
    q2.append(
        "SELECT column_name, data_type, is_nullable, column_default, column_key, extra, column_comment FROM information_schema.columns WHERE table_name = '",
    );
    q2.append(t);
    q2.append("' AND table_schema = DATABASE() ORDER BY ordinal_position");
    let mut q3 = String::new();
    q3.append("SHOW INDEX FROM `");
    q3.append(t);
    q3.append("`");
    proof {
        assert(((Seq::<char>::empty()
            + "SELECT * FROM information_schema.tables WHERE table_name = '"@) + t@)
            + "' AND table_schema = DATABASE()"@ =~= exists_sql_text(t@));
        assert(((Seq::<char>::empty()
            + "SELECT column_name, data_type, is_nullable, column_default, column_key, extra, column_comment FROM information_schema.columns WHERE table_name = '"@)
            + t@) + "' AND table_schema = DATABASE() ORDER BY ordinal_position"@ =~=
        columns_sql_text(t@));
        assert(((Seq::<char>::empty() + "SHOW INDEX FROM `"@) + t@) + "`"@ =~= indexes_sql_text(
            t@,
        ));
    }
    Some((q1, q2, q3))
}

/// The statement that lists the base tables of the active catalog.
pub fn tables_list_sql() -> (r: String)
    ensures
        r@ == "SELECT table_name FROM information_schema.tables WHERE table_schema = DATABASE() AND table_type = 'BASE TABLE'"@,
{
    String::from_str(
        "SELECT table_name FROM information_schema.tables WHERE table_schema = DATABASE() AND table_type = 'BASE TABLE'",
    )
}

/// One column row from the catalog, as plain values.
#[derive(Debug)]
pub struct ColumnRow {
    pub name: String,
    pub data_type: String,
    pub is_nullable: String,
    pub column_default: Option<String>,
    pub column_key: String,
    pub extra: String,
    pub comment: String,
}

/// One index row from the catalog, as plain values.
#[derive(Debug)]
pub struct IndexRow {
    pub key_name: String,
    pub column_name: String,
    pub non_unique: i64,
    pub index_type: String,
}

/// The JSON description of one column; `nullable` is the catalog's `YES`.
pub open spec fn column_jval(c: ColumnRow) -> JVal {
    JVal::Obj(
        seq![
            ("name"@, JVal::Str(c.name@)),
            ("type"@, JVal::Str(c.data_type@)),
            ("nullable"@, JVal::Bool(c.is_nullable@ == "YES"@)),
            (
                "default"@,
                match c.column_default {
                    Some(d) => JVal::Str(d@),
                    None => JVal::Null,
                },
            ),
            ("key"@, JVal::Str(c.column_key@)),
            ("extra"@, JVal::Str(c.extra@)),
            ("comment"@, JVal::Str(c.comment@)),
        ],
    )
}

/// The JSON description of one index; `unique` is the catalog's
/// `Non_unique = 0`.
pub open spec fn index_jval(x: IndexRow) -> JVal {
    JVal::Obj(
        seq![
            ("name"@, JVal::Str(x.key_name@)),
            ("column"@, JVal::Str(x.column_name@)),
            ("unique"@, JVal::Bool(x.non_unique == 0)),
            ("type"@, JVal::Str(x.index_type@)),
        ],
    )
}

/// The JSON descriptions of all columns, in order.
pub open spec fn column_jvals(cols: Seq<ColumnRow>) -> Seq<JVal> {
    Seq::new(
        cols.len(),
        |i: int|
            if 0 <= i < cols.len() {
                column_jval(cols[i])
            } else {
                JVal::Null
            },
    )
}

/// The JSON descriptions of all indexes, in order.
pub open spec fn index_jvals(idxs: Seq<IndexRow>) -> Seq<JVal> {
    Seq::new(
        idxs.len(),
        |i: int|
            if 0 <= i < idxs.len() {
                index_jval(idxs[i])
            } else {
                JVal::Null
            },
    )
}

/// The structured description of one table.
pub open spec fn table_schema_jval(t: Seq<char>, cols: Seq<ColumnRow>, idxs: Seq<IndexRow>) -> JVal {
    JVal::Obj(
        seq![
            ("table_name"@, JVal::Str(t)),
            ("columns"@, JVal::Arr(column_jvals(cols))),
            ("indexes"@, JVal::Arr(index_jvals(idxs))),
        ],
    )
}

/// Builds the JSON description of one column.
fn column_json(c: &ColumnRow) -> (r: Json)
    ensures
        r.deep_view() == column_jval(*c),
{
    let nullable = str_eq(c.is_nullable.as_str(), "YES");
    let default_json = match &c.column_default {
        Some(d) => Json::Str(d.clone()),
        None => Json::Null,
    };
    let mut f: Vec<(String, Json)> = Vec::new();
    f.push((String::from_str("name"), Json::Str(c.name.clone())));
    f.push((String::from_str("type"), Json::Str(c.data_type.clone())));
    f.push((String::from_str("nullable"), Json::Bool(nullable)));
    f.push((String::from_str("default"), default_json));
    f.push((String::from_str("key"), Json::Str(c.column_key.clone())));
    f.push((String::from_str("extra"), Json::Str(c.extra.clone())));
    f.push((String::from_str("comment"), Json::Str(c.comment.clone())));
    proof {
        assert(views_of_pairs(f@) =~~= column_jval(*c)->Obj_0);
        assert(Json::Obj(f).deep_view() =~~= column_jval(*c));
    }
    Json::Obj(f)
}

/// Builds the JSON description of one index.
fn index_json(x: &IndexRow) -> (r: Json)
    ensures
        r.deep_view() == index_jval(*x),
{
    let mut f: Vec<(String, Json)> = Vec::new();
    f.push((String::from_str("name"), Json::Str(x.key_name.clone())));
    f.push((String::from_str("column"), Json::Str(x.column_name.clone())));
    f.push((String::from_str("unique"), Json::Bool(x.non_unique == 0)));
    f.push((String::from_str("type"), Json::Str(x.index_type.clone())));
    proof {
        assert(views_of_pairs(f@) =~~= index_jval(*x)->Obj_0);
        assert(Json::Obj(f).deep_view() =~~= index_jval(*x));
    }
    Json::Obj(f)
}

/// Builds the structured description of one table.
pub fn table_schema_json(t: &str, cols: &Vec<ColumnRow>, idxs: &Vec<IndexRow>) -> (r: Json)
    ensures
        r.deep_view() == table_schema_jval(t@, cols@, idxs@),
{
    let n = cols.len();
    let mut col_objs: Vec<Json> = Vec::new();
    let mut i: usize = 0;
    while i < n
        invariant
            n == cols@.len(),
            i <= n,
            col_objs@.len() == i,
            forall|j: int|
                0 <= j < i ==> #[trigger] col_objs@[j].deep_view() == column_jval(cols@[j]),
        decreases n - i,
    {
        let o = column_json(&cols[i]);
        col_objs.push(o);
        i = i + 1;
    }
    let m = idxs.len();
    let mut idx_objs: Vec<Json> = Vec::new();
    let mut k: usize = 0;
    while k < m
        invariant
            m == idxs@.len(),
            k <= m,
            idx_objs@.len() == k,
            forall|j: int|
                0 <= j < k ==> #[trigger] idx_objs@[j].deep_view() == index_jval(idxs@[j]),
        decreases m - k,
    {
        let o = index_json(&idxs[k]);
        idx_objs.push(o);
        k = k + 1;
    }
    proof {
        assert forall|j: int| 0 <= j < cols@.len() implies views_of(col_objs@)[j] == column_jvals(
            cols@,
        )[j] by {
            assert(col_objs@[j].deep_view() == column_jval(cols@[j]));
        }
        assert(views_of(col_objs@) =~= column_jvals(cols@));
        assert forall|j: int| 0 <= j < idxs@.len() implies views_of(idx_objs@)[j] == index_jvals(
            idxs@,
        )[j] by {
            assert(idx_objs@[j].deep_view() == index_jval(idxs@[j]));
        }
        assert(views_of(idx_objs@) =~= index_jvals(idxs@));
    }
    let mut f: Vec<(String, Json)> = Vec::new();
    f.push((String::from_str("table_name"), jstr(t)));
    f.push((String::from_str("columns"), Json::Arr(col_objs)));
    f.push((String::from_str("indexes"), Json::Arr(idx_objs)));
    proof {
        assert(views_of_pairs(f@) =~~= table_schema_jval(t@, cols@, idxs@)->Obj_0);
        assert(Json::Obj(f).deep_view() =~~= table_schema_jval(t@, cols@, idxs@));
    }
    Json::Obj(f)
}

/// What one table's introspection came to: a database failure, a table that
/// is not in the catalog, or its column and index rows.
#[derive(Debug)]
pub enum TableFetch {
    Failed(String),
    Absent,
    Found { columns: Vec<ColumnRow>, indexes: Vec<IndexRow> },
}

/// The response for `schema(name)` on a single table.
pub fn single_schema_response(id: Json, table: &str, fetch: TableFetch) -> (r: Response)
    ensures
        fetch matches TableFetch::Failed(m) ==> r.jval() == err_response_jval(
            id.deep_view(),
            INTERNAL_ERROR,
            "Failed to get schema for table '"@ + table@ + "': "@ + m@,
        ),
        fetch is Absent ==> r.jval() == err_response_jval(
            id.deep_view(),
            INTERNAL_ERROR,
            "Failed to get schema for table '"@ + table@ + "': table not found"@,
        ),
        fetch matches TableFetch::Found { columns, indexes } ==> r.jval() == ok_response_jval(
            id.deep_view(),
            JVal::Obj(
                seq![
                    (
                        "content"@,
                        JVal::Arr(
                            seq![
                                JVal::Obj(
                                    seq![
                                        ("type"@, JVal::Str("text"@)),
                                        (
                                            "text"@,
                                            JVal::Str(
                                                "Retrieved schema for table '"@ + table@ + "'."@,
                                            ),
                                        ),
                                    ],
                                ),
                            ],
                        ),
                    ),
                    ("schema"@, table_schema_jval(table@, columns@, indexes@)),
                ],
            ),
        ),
        r.id == id,
{
    match fetch {
        TableFetch::Failed(m) => {
            let mut msg = String::new();
            msg.append("Failed to get schema for table '");
            msg.append(table);
            msg.append("': ");
            msg.append(m.as_str());
            proof {
                assert((((Seq::<char>::empty() + "Failed to get schema for table '"@) + table@)
                    + "': "@) + m@ =~= "Failed to get schema for table '"@ + table@ + "': "@
                    + m@);
            }
            error_response(id, INTERNAL_ERROR, msg)
        },
        TableFetch::Absent => {
            let mut msg = String::new();
            msg.append("Failed to get schema for table '");
            msg.append(table);
            msg.append("': table not found");
            proof {
                assert(((Seq::<char>::empty() + "Failed to get schema for table '"@) + table@)
                    + "': table not found"@ =~= "Failed to get schema for table '"@ + table@
                    + "': table not found"@);
            }
            error_response(id, INTERNAL_ERROR, msg)
        },
        TableFetch::Found { columns, indexes } => {
            let mut text = String::new();
            text.append("Retrieved schema for table '");
            text.append(table);
            text.append("'.");
            proof {
                assert(((Seq::<char>::empty() + "Retrieved schema for table '"@) + table@)
                    + "'."@ =~= "Retrieved schema for table '"@ + table@ + "'."@);
            }
            let schema = table_schema_json(table, &columns, &indexes);
            let content = arr1(obj2("type", jstr("text"), "text", Json::Str(text)));
            let payload = obj2("content", content, "schema", schema);
            Response { id, body: Ok(payload) }
        },
    }
}

/// The schemas an all-tables scan keeps: one per table whose introspection
/// succeeded, in catalog order; failed and vanished tables are skipped.
pub open spec fn schemas_of(outcomes: Seq<(String, TableFetch)>) -> Seq<JVal>
    decreases outcomes.len(),
{
    if outcomes.len() == 0 {
        Seq::empty()
    } else {
        let rest = schemas_of(outcomes.drop_first());
        match outcomes[0].1 {
            TableFetch::Found { columns, indexes } => seq![
                table_schema_jval(outcomes[0].0@, columns@, indexes@),
            ] + rest,
            _ => rest,
        }
    }
}

/// How many tables of an all-tables scan succeeded.
pub open spec fn count_ok(outcomes: Seq<(String, TableFetch)>) -> nat
    decreases outcomes.len(),
{
    if outcomes.len() == 0 {
        0
    } else {
        (if outcomes[0].1 is Found {
            1nat
        } else {
            0nat
        }) + count_ok(outcomes.drop_first())
    }
}

/// Law: an all-tables scan returns exactly one schema for each table whose
/// introspection succeeded — a failure on one table never costs another
/// table its entry, and the reported count is the number of successes.
pub proof fn lemma_partial_scan(outcomes: Seq<(String, TableFetch)>)
    ensures
        schemas_of(outcomes).len() == count_ok(outcomes),
    decreases outcomes.len(),
{
    if outcomes.len() > 0 {
        lemma_partial_scan(outcomes.drop_first());
    }
}

proof fn lemma_schemas_snoc(outcomes: Seq<(String, TableFetch)>, x: (String, TableFetch))
    ensures
        x.1 matches TableFetch::Found { columns, indexes } ==> schemas_of(outcomes.push(x))
            =~= schemas_of(outcomes).push(table_schema_jval(x.0@, columns@, indexes@)),
        !(x.1 is Found) ==> schemas_of(outcomes.push(x)) =~= schemas_of(outcomes),
    decreases outcomes.len(),
{
    let op = outcomes.push(x);
    if outcomes.len() == 0 {
        assert(op[0] == x);
        assert(op.drop_first() =~= Seq::empty());
        assert(schemas_of(op.drop_first()) == Seq::<JVal>::empty());
        match &x.1 {
            TableFetch::Found { columns, indexes } => {
                let v = table_schema_jval(x.0@, columns@, indexes@);
                assert(schemas_of(op) == seq![v] + Seq::<JVal>::empty());
                assert(seq![v] + Seq::<JVal>::empty() =~= schemas_of(outcomes).push(v));
            },
            _ => {
                assert(schemas_of(op) =~= schemas_of(outcomes));
            },
        }
    } else {
        assert(op[0] == outcomes[0]);
        assert(op.drop_first() =~= outcomes.drop_first().push(x));
        lemma_schemas_snoc(outcomes.drop_first(), x);
        assert(schemas_of(op.drop_first()) == schemas_of(outcomes.drop_first().push(x)));
        match &x.1 {
            TableFetch::Found { columns, indexes } => {
                let v = table_schema_jval(x.0@, columns@, indexes@);
                assert(schemas_of(outcomes.drop_first().push(x)) == schemas_of(
                    outcomes.drop_first(),
                ).push(v));
                match outcomes[0].1 {
                    TableFetch::Found { columns: c0, indexes: i0 } => {
                        let hd = table_schema_jval(outcomes[0].0@, c0@, i0@);
                        assert(schemas_of(op) == seq![hd] + schemas_of(
                            outcomes.drop_first(),
                        ).push(v));
                        assert(schemas_of(outcomes) == seq![hd] + schemas_of(
                            outcomes.drop_first(),
                        ));
                        assert(seq![hd] + schemas_of(outcomes.drop_first()).push(v) =~=
                        schemas_of(outcomes).push(v));
                    },
                    _ => {
                        assert(schemas_of(op) == schemas_of(outcomes.drop_first()).push(v));
                        assert(schemas_of(outcomes) == schemas_of(outcomes.drop_first()));
                    },
                }
            },
            _ => {
                assert(schemas_of(outcomes.drop_first().push(x)) =~= schemas_of(
                    outcomes.drop_first(),
                ));
                match outcomes[0].1 {
                    TableFetch::Found { columns: c0, indexes: i0 } => {
                        let hd = table_schema_jval(outcomes[0].0@, c0@, i0@);
                        assert(schemas_of(op) == seq![hd] + schemas_of(
                            outcomes.drop_first().push(x),
                        ));
                        assert(seq![hd] + schemas_of(outcomes.drop_first().push(x)) =~= seq![hd]
                            + schemas_of(outcomes.drop_first()));
                        assert(schemas_of(outcomes) == seq![hd] + schemas_of(
                            outcomes.drop_first(),
                        ));
                    },
                    _ => {
                        assert(schemas_of(op) == schemas_of(outcomes.drop_first().push(x)));
                        assert(schemas_of(outcomes) == schemas_of(outcomes.drop_first()));
                    },
                }
            },
        }
    }
}

/// The response for `schema("all-tables")` once every table's outcome is in:
/// the surviving schemas in order, and a count that reflects only them.
pub fn all_schemas_response(id: Json, outcomes: &Vec<(String, TableFetch)>) -> (r: Response)
    ensures
        r.jval() == ok_response_jval(
            id.deep_view(),
            JVal::Obj(
                seq![
                    (
                        "content"@,
                        JVal::Arr(
                            seq![
                                JVal::Obj(
                                    seq![
                                        ("type"@, JVal::Str("text"@)),
                                        (
                                            "text"@,
                                            JVal::Str(
                                                "Retrieved schemas for "@ + crate::text::dec_of(
                                                    schemas_of(outcomes@).len() as int,
                                                ) + " tables."@,
                                            ),
                                        ),
                                    ],
                                ),
                            ],
                        ),
                    ),
                    ("schemas"@, JVal::Arr(schemas_of(outcomes@))),
                ],
            ),
        ),
        r.id == id,
{
    let n = outcomes.len();
    let mut objs: Vec<Json> = Vec::new();
    let mut i: usize = 0;
    while i < n
        invariant
            n == outcomes@.len(),
            i <= n,
            views_of(objs@) =~= schemas_of(outcomes@.take(i as int)),
        decreases n - i,
    {
        match &outcomes[i].1 {
            TableFetch::Found { columns, indexes } => {
                let o = table_schema_json(outcomes[i].0.as_str(), columns, indexes);
                objs.push(o);
            },
            _ => {},
        }
        proof {
            lemma_schemas_snoc(outcomes@.take(i as int), outcomes@[i as int]);
            assert(outcomes@.take(i + 1) =~= outcomes@.take(i as int).push(outcomes@[i as int]));
            assert(views_of(objs@) =~= schemas_of(outcomes@.take(i + 1)));
        }
        i = i + 1;
    }
    proof {
        assert(outcomes@.take(n as int) =~= outcomes@);
    }
    let count = objs.len();
    let mut text = String::new();
    text.append("Retrieved schemas for ");
    crate::text::append_u64(&mut text, count as u64);
    text.append(" tables.");
    proof {
        assert(((Seq::<char>::empty() + "Retrieved schemas for "@) + crate::text::dec_of(
            count as int,
        )) + " tables."@ =~= "Retrieved schemas for "@ + crate::text::dec_of(count as int)
            + " tables."@);
    }
    let content = arr1(obj2("type", jstr("text"), "text", Json::Str(text)));
    let payload = obj2("content", content, "schemas", Json::Arr(objs));
    Response { id, body: Ok(payload) }
}

/// The response when the catalog's table listing itself failed.
pub fn all_schemas_failed_response(id: Json, message: &str) -> (r: Response)
    ensures
        r.jval() == err_response_jval(
            id.deep_view(),
            INTERNAL_ERROR,
            "Failed to get table schemas: "@ + message@,
        ),
        r.id == id,
{
    let mut msg = String::new();
    msg.append("Failed to get table schemas: ");
    msg.append(message);
    proof {
        assert((Seq::<char>::empty() + "Failed to get table schemas: "@) + message@ =~=
        "Failed to get table schemas: "@ + message@);
    }
    error_response(id, INTERNAL_ERROR, msg)
}

} // verus!
